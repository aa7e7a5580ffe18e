use sticker_downloader::convert::{webp_to_png, ConversionError};
use sticker_downloader::error::{
    empty_reply, invalid_button_data, AlreadyDownloading, CallbackQueryError, Error, SendDocumentError,
};
use sticker_downloader::pipeline::{check_supported_sticker, format_caption, plan_names};
use sticker_downloader::query_command::{DownloadFormat, DownloadTarget};
use sticker_downloader::sticker_set_info::{StickerMeta, StickerSetInfo, StickerSetKind, StickerSetMeta};

fn meta(uid: &str, emoji: Option<&str>) -> StickerMeta {
    StickerMeta {
        file_id: format!("id-{uid}"),
        file_unique_id: uid.to_string(),
        width: 512,
        height: 512,
        emoji: emoji.map(str::to_string),
        is_animated: false,
        is_video: false,
    }
}

fn set(title: &str) -> StickerSetMeta {
    StickerSetMeta {
        name: "cats".to_string(),
        title: title.to_string(),
        is_animated: false,
        is_video: false,
        stickers: vec![meta("u0", Some("😎")), meta("u1", None), meta("u2", Some("🚀"))],
    }
}

#[test]
fn error_texts() {
    let e = CallbackQueryError::InvalidButtonData { data: "zz".to_string() };
    assert_eq!(e.message(), "Invalid button data: `zz`");
    assert!(!e.is_post());
    let e = CallbackQueryError::AlreadyDownloading(AlreadyDownloading(DownloadTarget::All));
    assert_eq!(e.message(), "This set is already being downloaded");
    let e = CallbackQueryError::AlreadyDownloading(AlreadyDownloading(DownloadTarget::Single));
    assert_eq!(e.message(), "This sticker is already being downloaded");
    let e = CallbackQueryError::Download("boom".to_string());
    assert!(e.is_post());
    assert_eq!(
        e.message(),
        "An error happened while downloading sticker(s): <code>boom</code> :(\n\nTry again later."
    );
    let e = CallbackQueryError::SendDocument(SendDocumentError("nope".to_string()));
    assert!(e.is_post());
    assert_eq!(e.message(), "Couldn't send the document: nope.\n Try again later.");
    assert_eq!(CallbackQueryError::NoMessage.message(), "No message? :c");
    let e = CallbackQueryError::Package("too big".to_string());
    assert!(e.is_post());
    assert_eq!(e.message(), "Couldn't build the archive: too big.\n Try again later.");
    match invalid_button_data("q") {
        Err(Error::Show(CallbackQueryError::InvalidButtonData { data })) => assert_eq!(data, "q"),
        _ => panic!("wrong error"),
    }
    assert!(matches!(empty_reply(), Error::Show(CallbackQueryError::EmptyReply)));
}

#[test]
fn unsupported_stickers_are_refused() {
    let mut m = meta("u", None);
    assert!(check_supported_sticker(&m).is_ok());
    m.is_video = true;
    assert!(matches!(
        check_supported_sticker(&m),
        Err(Error::Show(CallbackQueryError::VideoStickerNotSupported))
    ));
    m.is_animated = true;
    assert!(matches!(
        check_supported_sticker(&m),
        Err(Error::Show(CallbackQueryError::AnimatedStickerNotSupported))
    ));
}

#[test]
fn names_to_fetch() {
    let s = set("Cats");
    let all = plan_names(DownloadTarget::All, DownloadFormat::Webp, &s.stickers[1], Some(&s));
    assert_eq!(
        all,
        vec![
            ("000_smiling_face_with_sunglasses.webp".to_string(), "id-u0".to_string()),
            ("001_malformed_emoji.webp".to_string(), "id-u1".to_string()),
            ("002_rocket.webp".to_string(), "id-u2".to_string()),
        ]
    );
    let one = plan_names(DownloadTarget::Single, DownloadFormat::Png, &s.stickers[2], Some(&s));
    assert_eq!(one, vec![("002_rocket.png".to_string(), "id-u2".to_string())]);
    let alone = plan_names(DownloadTarget::All, DownloadFormat::Png, &meta("zz", Some("😎")), None);
    assert_eq!(alone, vec![("smiling_face_with_sunglasses.png".to_string(), "id-zz".to_string())]);
    let stranger = plan_names(DownloadTarget::Single, DownloadFormat::Webp, &meta("zz", Some("🚀")), Some(&s));
    assert_eq!(stranger, vec![("rocket.webp".to_string(), "id-zz".to_string())]);
    assert!(DownloadFormat::Png.needs_conversion());
    assert!(!DownloadFormat::Webp.needs_conversion());
}

#[test]
fn captions() {
    assert_eq!(
        format_caption(Some(&set("Cats & <Dogs>"))),
        "Stickers set: <b>Cats &amp; &lt;Dogs&gt;</b>\nStickers in set: <b>3</b>"
    );
    assert_eq!(format_caption(None), "");
}

#[test]
fn set_description() {
    let mut s = set("Cats");
    let files = vec![("000_a.png".to_string(), vec![0u8; 10]), ("001_b.png".to_string(), vec![0u8; 3])];
    let info = StickerSetInfo::new(&s, &files);
    assert_eq!(info.name, "cats");
    assert_eq!(info.kind, StickerSetKind::Common);
    assert_eq!(info.stickers.len(), 2);
    assert_eq!(info.stickers[0].path, "000_a.png");
    assert_eq!(info.stickers[0].size_bytes, 10);
    assert_eq!(info.stickers[1].file_unique_id, "u1");
    assert_eq!(info.stickers[1].emoji, None);
    assert_eq!(info.stickers[0].emoji.as_deref(), Some("😎"));
    s.is_video = true;
    assert_eq!(StickerSetInfo::new(&s, &files).kind, StickerSetKind::Video);
    s.is_animated = true;
    assert_eq!(StickerSetInfo::new(&s, &files).kind, StickerSetKind::Animated);
}

#[test]
fn webp_becomes_png_with_the_same_pixels() {
    let rgba: Vec<u8> = (0..4 * 3 * 2).map(|i| (i * 10) as u8).collect();
    let webp = libwebp::WebPEncodeLosslessRGBA(&rgba, 3, 2, 12).unwrap();
    let png = match webp_to_png(&webp) {
        Ok(p) => p,
        Err(_) => panic!("conversion failed"),
    };
    assert_ne!(png, webp.to_vec());
    let img = lodepng::decode32(&png).unwrap();
    assert_eq!((img.width, img.height), (3, 2));
    let px: Vec<u8> = img.buffer.iter().flat_map(|p| [p.r, p.g, p.b, p.a]).collect();
    assert_eq!(px, rgba);
}

#[test]
fn non_webp_bytes_are_refused() {
    assert!(matches!(webp_to_png(b"not an image"), Err(ConversionError::Decode(_))));
}
