//! File names of stickers, and archives of files.

use vstd::prelude::*;
use vstd::string::StrSliceExecFns;
use vstd::string::StringExecFns;
use std::io::{Cursor, Write};
use unicode_segmentation::UnicodeSegmentation;
use zip::result::ZipError;
use zip::ZipWriter;
use crate::progress::{digit_char, digit_str};

verus! {

/// An archive being written into memory. The writer is hidden from
/// verification, whose trait bounds it cannot take; `zip_entries` says what
/// it holds.
#[verifier::external_body]
pub struct ArchiveWriter {
    w: ZipWriter<Cursor<Vec<u8>>>,
}

#[verifier::external_type_specification]
#[verifier::external_body]
pub struct ExZipError(ZipError);

/// How an entry's bytes are kept in an archive.
#[derive(Copy, Clone, Debug, PartialEq, Eq, Structural)]
pub enum EntryMethod {
    /// As they are, uncompressed.
    Stored,
}

/// The entries written so far into an in-memory archive: name, method and
/// bytes of each, in order.
pub uninterp spec fn zip_entries(z: ArchiveWriter) -> Seq<(Seq<char>, EntryMethod, Seq<u8>)>;

/// Whether the writer still takes entries: made so, and neither finished
/// nor closed by a failed write.
pub uninterp spec fn zip_open(z: ArchiveWriter) -> bool;

/// The bytes of an archive that holds these entries.
pub uninterp spec fn stored_zip(entries: Seq<(Seq<char>, EntryMethod, Seq<u8>)>) -> Seq<u8>;

/// Whether the last entry, if any, is within the size a plain entry may
/// have (`u32::MAX` bytes).
pub open spec fn last_entry_fits(e: Seq<(Seq<char>, EntryMethod, Seq<u8>)>) -> bool {
    e.len() > 0 ==> e.last().2.len() <= u32::MAX
}

/// Relies on `ZipWriter::new` over an empty in-memory buffer: an open
/// archive with no entries.
#[verifier::external_body]
fn zip_new() -> (r: ArchiveWriter)
    ensures
        zip_entries(r) == Seq::<(Seq<char>, EntryMethod, Seq<u8>)>::empty(),
        zip_open(r),
{
    ArchiveWriter { w: ZipWriter::new(Cursor::new(Vec::new())) }
}

/// Relies on `ZipWriter::start_file` with default options and the given
/// method: on an open writer whose last entry fits, it closes that entry and
/// starts a new, empty one named `name`; the in-memory buffer does not fail.
#[verifier::external_body]
fn zip_start_entry(z: &mut ArchiveWriter, name: String, method: EntryMethod) -> (r: Result<(), ZipError>)
    requires
        zip_open(*old(z)),
        last_entry_fits(zip_entries(*old(z))),
    ensures
        r is Ok,
        zip_open(*final(z)),
        zip_entries(*final(z)) == zip_entries(*old(z)).push((name@, method, Seq::<u8>::empty())),
{
    let method = match method {
        EntryMethod::Stored => zip::CompressionMethod::Stored,
    };
    let options = zip::write::FileOptions::default().compression_method(method);
    z.w.start_file(name, options)
}

/// Relies on `ZipWriter`'s `io::Write::write_all`: the bytes extend the
/// entry started last; it fails, closing the writer, exactly when the entry
/// would pass `u32::MAX` bytes.
#[verifier::external_body]
fn zip_write_all(z: &mut ArchiveWriter, bytes: &[u8]) -> (r: Result<(), ZipError>)
    requires
        zip_open(*old(z)),
        zip_entries(*old(z)).len() > 0,
    ensures
        r is Ok <==> zip_entries(*old(z)).last().2.len() + bytes@.len() <= u32::MAX,
        r is Ok ==> {
            let e = zip_entries(*old(z));
            let last = e.len() - 1;
            &&& zip_open(*final(z))
            &&& zip_entries(*final(z)) == e.update(last, (e[last].0, e[last].1, e[last].2 + bytes@))
        },
{
    Write::write_all(&mut z.w, bytes).map_err(ZipError::from)
}

/// Relies on `ZipWriter::finish`: on an open writer whose last entry fits,
/// the archive's bytes, which depend on its entries alone (fixed default
/// timestamps and permissions). The writer is closed after.
#[verifier::external_body]
fn zip_finish(z: &mut ArchiveWriter) -> (r: Result<Vec<u8>, ZipError>)
    requires
        zip_open(*old(z)),
        last_entry_fits(zip_entries(*old(z))),
    ensures
        r matches Ok(b) && b@ == stored_zip(zip_entries(*old(z))),
        !zip_open(*final(z)),
{
    z.w.finish().map(|c| c.into_inner())
}

/// A file ready for delivery: its name and its bytes.
pub struct NamedFile {
    pub name: String,
    pub bytes: Vec<u8>,
}

/// Building an archive failed; nothing of it is kept.
pub enum PackageError {
    Archive(ZipError),
}

/// The stored entries that a list of `(name, bytes)` files makes.
pub open spec fn entries_of(files: Seq<(String, Vec<u8>)>) -> Seq<(Seq<char>, EntryMethod, Seq<u8>)> {
    files.map_values(|f: (String, Vec<u8>)| (f.0@, EntryMethod::Stored, f.1@))
}

/// Whether every file is within the size of a plain archive entry.
pub open spec fn all_fit(files: Seq<(String, Vec<u8>)>) -> bool {
    forall|i: int| 0 <= i < files.len() ==> (#[trigger] files[i]).1@.len() <= u32::MAX
}

/// Archives files together into `{name}.zip`, each file one entry, in the
/// given order, stored uncompressed: the images are compressed already.
/// It succeeds whenever every file fits in a plain entry.
pub fn archive(name: &str, files: Vec<(String, Vec<u8>)>) -> (r: Result<NamedFile, PackageError>)
    ensures
        all_fit(files@) ==> r is Ok,
        r matches Ok(f) ==> f.name@ == name@ + ".zip"@ && f.bytes@ == stored_zip(
            entries_of(files@),
        ),
{
    let mut zip = zip_new();
    let mut i: usize = 0;
    while i < files.len()
        invariant
            i <= files@.len(),
            zip_open(zip),
            zip_entries(zip) == entries_of(files@.subrange(0, i as int)),
            last_entry_fits(zip_entries(zip)),
        decreases files@.len() - i,
    {
        let (file_name, bytes) = (files[i].0.clone(), files[i].1.as_slice());
        match zip_start_entry(&mut zip, file_name, EntryMethod::Stored) {
            Ok(()) => {},
            Err(e) => return Err(PackageError::Archive(e)),
        }
        match zip_write_all(&mut zip, bytes) {
            Ok(()) => {},
            Err(e) => {
                // only a file past the size of a plain entry fails
                assert(files@[i as int].1@.len() > u32::MAX);
                return Err(PackageError::Archive(e));
            },
        }
        proof {
            assert(entries_of(files@.subrange(0, i as int + 1)) =~= entries_of(
                files@.subrange(0, i as int),
            ).push((files@[i as int].0@, EntryMethod::Stored, files@[i as int].1@)));
            assert(Seq::<u8>::empty() + bytes@ =~= bytes@);
        }
        i = i + 1;
    }
    assert(files@.subrange(0, files@.len() as int) =~= files@);
    let bytes = match zip_finish(&mut zip) {
        Ok(b) => b,
        Err(e) => return Err(PackageError::Archive(e)),
    };
    let mut archive_name = String::from_str(name);
    archive_name.append(".zip");
    Ok(NamedFile { name: archive_name, bytes })
}

/// The grapheme clusters of a text, in order.
pub uninterp spec fn graphemes_of(s: Seq<char>) -> Seq<Seq<char>>;

/// The name of the emoji that a grapheme cluster is, if it is one.
pub uninterp spec fn emoji_name_of(cluster: Seq<char>) -> Option<Seq<char>>;

/// Relies on `UnicodeSegmentation::graphemes` (extended clusters): the
/// text split into its grapheme clusters.
#[verifier::external_body]
fn grapheme_clusters(s: &str) -> (r: Vec<String>)
    ensures
        r@.map_values(|g: String| g@) == graphemes_of(s@),
{
    s.graphemes(true).map(|g| g.to_owned()).collect()
}

/// Relies on `emojis::get` and `Emoji::name`: the name of the emoji that
/// `cluster` is, or nothing when it is none.
#[verifier::external_body]
fn emoji_name(cluster: &str) -> (r: Option<String>)
    ensures
        emoji_name_of(cluster@) == match r {
            Some(n) => Some(n@),
            None => None::<Seq<char>>,
        },
{
    emojis::get(cluster).map(|e| e.name().to_owned())
}

/// Relies on `String::push`: the character is appended.
#[verifier::external_body]
pub(crate) fn push_char(s: &mut String, c: char)
    ensures
        final(s)@ == old(s)@.push(c),
{
    s.push(c)
}

/// The name of the first cluster that is an emoji.
pub open spec fn first_emoji_name(clusters: Seq<Seq<char>>) -> Option<Seq<char>>
    decreases clusters.len(),
{
    if clusters.len() == 0 {
        None
    } else if emoji_name_of(clusters[0]) is Some {
        emoji_name_of(clusters[0])
    } else {
        first_emoji_name(clusters.drop_first())
    }
}

/// Spaces turned into underscores.
pub open spec fn underscored(s: Seq<char>) -> Seq<char> {
    s.map_values(|c: char| if c == ' ' { '_' } else { c })
}

/// A number below 1000 in three digits, with leading zeros.
pub open spec fn three_digits(n: nat) -> Seq<char> {
    seq![digit_char(n / 100), digit_char((n / 10) % 10), digit_char(n % 10)]
}

/// The file name of a sticker: its position in its set, in three digits
/// and followed by `_` (nothing when it is in no set), then the emoji's
/// name with underscores for spaces, or `malformed_emoji` without one.
pub open spec fn spec_sticker_name(idx: Option<u8>, emoji: Option<Seq<char>>) -> Seq<char> {
    let name = underscored(
        match emoji {
            Some(n) => n,
            None => "malformed_emoji"@,
        },
    );
    match idx {
        Some(i) => three_digits(i as nat) + seq!['_'] + name,
        None => name,
    }
}

/// The file name of a sticker given the name of its emoji, if it has one.
pub fn file_stem(idx: Option<u8>, emoji: Option<&str>) -> (r: String)
    ensures
        r@ == spec_sticker_name(
            idx,
            match emoji {
                Some(n) => Some(n@),
                None => None,
            },
        ),
{
    let name = match emoji {
        Some(n) => n,
        None => "malformed_emoji",
    };
    let mut out = String::new();
    if let Some(i) = idx {
        let i = i as u128;
        out.append(digit_str(i / 100));
        out.append(digit_str((i / 10) % 10));
        out.append(digit_str(i % 10));
        push_char(&mut out, '_');
    }
    let ghost start = out@;
    let len = name.unicode_len();
    let mut k: usize = 0;
    while k < len
        invariant
            len == name@.len(),
            k <= len,
            out@ == start + underscored(name@.subrange(0, k as int)),
        decreases len - k,
    {
        let c = name.get_char(k);
        if c == ' ' {
            push_char(&mut out, '_');
        } else {
            push_char(&mut out, c);
        }
        assert(underscored(name@.subrange(0, k as int + 1)) =~= underscored(
            name@.subrange(0, k as int),
        ).push(if c == ' ' { '_' } else { c }));
        k = k + 1;
    }
    assert(name@.subrange(0, len as int) =~= name@);
    assert(out@ =~= spec_sticker_name(
        idx,
        match emoji {
            Some(n) => Some(n@),
            None => None,
        },
    ));
    out
}

/// Returns the file name for a sticker that is `idx`-th in its set (`None`
/// if it is in none), named after the first emoji among `emojis`.
pub fn sticker_name(idx: Option<u8>, emojis: &str) -> (r: String)
    ensures
        r@ == spec_sticker_name(idx, first_emoji_name(graphemes_of(emojis@))),
{
    let clusters = grapheme_clusters(emojis);
    let ghost views = clusters@.map_values(|g: String| g@);
    let mut found: Option<String> = None;
    let mut i: usize = 0;
    assert(views.subrange(0, views.len() as int) =~= views);
    while i < clusters.len() && found.is_none()
        invariant
            i <= clusters@.len(),
            views == clusters@.map_values(|g: String| g@),
            views == graphemes_of(emojis@),
            found is None ==> first_emoji_name(views) == first_emoji_name(
                views.subrange(i as int, views.len() as int),
            ),
            found matches Some(n) ==> first_emoji_name(views) == Some(n@),
        decreases clusters@.len() - i,
    {
        let ghost rest = views.subrange(i as int, views.len() as int);
        assert(rest.drop_first() =~= views.subrange(i as int + 1, views.len() as int));
        assert(rest[0] == clusters@[i as int]@);
        found = emoji_name(clusters[i].as_str());
        i = i + 1;
    }
    match found {
        Some(n) => file_stem(idx, Some(n.as_str())),
        None => {
            assert(views.subrange(i as int, views.len() as int).len() == 0);
            file_stem(idx, None)
        },
    }
}

} // verus!
