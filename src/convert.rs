//! Format conversion: a WebP sticker re-encoded as PNG.

use vstd::prelude::*;
use lodepng::Error as PngError;

verus! {

#[verifier::external_type_specification]
#[verifier::external_body]
pub struct ExWebPSimpleError(libwebp::error::WebPSimpleError);

#[verifier::external_type_specification]
#[verifier::external_body]
pub struct ExPngError(PngError);

/// Width, height and RGBA pixels (four bytes each, row by row) of a WebP
/// image, when the bytes are one.
pub uninterp spec fn webp_rgba(data: Seq<u8>) -> Option<(u32, u32, Seq<u8>)>;

/// The PNG encoding of RGBA pixels of the given width and height, or
/// nothing where the encoder refuses them.
pub uninterp spec fn png_of_rgba(pixels: Seq<u8>, width: u32, height: u32) -> Option<Seq<u8>>;

/// Relies on `libwebp::WebPDecodeRGBA`: the image's size and its RGBA
/// pixels, `width * height * 4` bytes, or an error when the bytes are no
/// WebP image.
#[verifier::external_body]
fn decode_webp_rgba(data: &[u8]) -> (r: Result<(u32, u32, Vec<u8>), libwebp::error::WebPSimpleError>)
    ensures
        match r {
            Ok((w, h, px)) => {
                &&& webp_rgba(data@) == Some((w, h, px@))
                &&& px@.len() == w as nat * h as nat * 4
            },
            Err(_) => webp_rgba(data@) is None,
        },
{
    libwebp::WebPDecodeRGBA(data).map(|(w, h, px)| (w, h, px.to_vec()))
}

/// Relies on `lodepng::encode32` (pixels seen as `RGBA` through
/// `bytemuck::cast_slice`): the PNG encoding of the pixels, which depends on
/// them and the size alone, or the encoder's error.
#[verifier::external_body]
fn encode_png_rgba(pixels: &[u8], width: u32, height: u32) -> (r: Result<Vec<u8>, PngError>)
    requires
        pixels@.len() == width as nat * height as nat * 4,
    ensures
        match r {
            Ok(b) => png_of_rgba(pixels@, width, height) == Some(b@),
            Err(_) => png_of_rgba(pixels@, width, height) is None,
        },
{
    lodepng::encode32(
        bytemuck::cast_slice::<u8, lodepng::RGBA>(pixels),
        width as usize,
        height as usize,
    )
}

pub enum ConversionError {
    /// The bytes are no WebP image.
    Decode(libwebp::error::WebPSimpleError),
    /// The pixels could not be encoded.
    Encode(PngError),
}

/// Re-encodes a WebP image as PNG, pixel for pixel.
pub fn webp_to_png(webp: &[u8]) -> (r: Result<Vec<u8>, ConversionError>)
    ensures
        match webp_rgba(webp@) {
            None => r matches Err(ConversionError::Decode(_)),
            Some((w, h, px)) => match png_of_rgba(px, w, h) {
                Some(png) => r matches Ok(b) && b@ == png,
                None => r matches Err(ConversionError::Encode(_)),
            },
        },
{
    let (w, h, px) = match decode_webp_rgba(webp) {
        Ok(d) => d,
        Err(e) => return Err(ConversionError::Decode(e)),
    };
    match encode_png_rgba(px.as_slice(), w, h) {
        Ok(png) => Ok(png),
        Err(e) => Err(ConversionError::Encode(e)),
    }
}

} // verus!
