//! The steps of a download request around the fetches: what to fetch and
//! under which names, whether the fetches all succeeded, and the single
//! deliverable that is made of the files.

use vstd::prelude::*;
use vstd::string::StringExecFns;
use crate::download::{join_chunks, joined};
use crate::error::{animated_sticker_not_supported, video_sticker_not_supported, CallbackQueryError, Error};
use crate::progress::{decimal, push_decimal};
use crate::query_command::{DownloadFormat, DownloadTarget};
use crate::sticker_set_info::{StickerMeta, StickerSetMeta};
use crate::stuff::{all_fit, archive, entries_of, EntryMethod, first_emoji_name, graphemes_of, spec_sticker_name, sticker_name, stored_zip, NamedFile, PackageError};

verus! {

/// Animated and video stickers are refused; others pass.
pub fn check_supported_sticker(sticker: &StickerMeta) -> (r: Result<(), Error<CallbackQueryError>>)
    ensures
        sticker.is_animated ==> r matches Err(
            Error::Show(CallbackQueryError::AnimatedStickerNotSupported),
        ),
        !sticker.is_animated && sticker.is_video ==> r matches Err(
            Error::Show(CallbackQueryError::VideoStickerNotSupported),
        ),
        !sticker.is_animated && !sticker.is_video ==> r is Ok,
{
    if sticker.is_animated {
        Err(animated_sticker_not_supported())
    } else if sticker.is_video {
        Err(video_sticker_not_supported())
    } else {
        Ok(())
    }
}

/// The emoji text of a sticker, empty without one.
pub open spec fn emoji_text(m: StickerMeta) -> Seq<char> {
    match m.emoji {
        Some(e) => e@,
        None => Seq::empty(),
    }
}

/// The file name a sticker gets, given its position in its set, if any.
pub open spec fn name_for(idx: Option<u8>, m: StickerMeta) -> Seq<char> {
    spec_sticker_name(idx, first_emoji_name(graphemes_of(emoji_text(m))))
}

/// The first position in the set of a sticker with this unique id.
pub open spec fn position_in(set: Seq<StickerMeta>, uid: Seq<char>) -> Option<int>
    decreases set.len(),
{
    if set.len() == 0 {
        None
    } else if set.last().file_unique_id@ == uid && position_in(set.drop_last(), uid) is None {
        Some(set.len() - 1)
    } else {
        position_in(set.drop_last(), uid)
    }
}

/// The file name of a sticker's result: its name, a dot, the format's
/// extension.
pub open spec fn file_name_for(idx: Option<u8>, m: StickerMeta, format: DownloadFormat) -> Seq<char> {
    name_for(idx, m) + seq!['.'] + format.spec_ext()
}

fn sticker_file_name(idx: Option<u8>, m: &StickerMeta, format: DownloadFormat) -> (r: String)
    ensures
        r@ == file_name_for(idx, *m, format),
{
    let mut name = match &m.emoji {
        Some(e) => sticker_name(idx, e.as_str()),
        None => {
            let empty = String::new();
            sticker_name(idx, empty.as_str())
        },
    };
    proof {
        reveal_strlit(".");
    }
    name.append(".");
    name.append(format.ext());
    name
}

/// What to fetch, as `(file name, file id)` pairs: the sticker alone, named
/// after its position in its set if it has one, or, for a whole set, every
/// sticker of the set named after its position; each name ends in the
/// format's extension.
pub fn plan_names(
    target: DownloadTarget,
    format: DownloadFormat,
    sticker: &StickerMeta,
    set: Option<&StickerSetMeta>,
) -> (r: Vec<(String, String)>)
    ensures
        match (target, set) {
            (DownloadTarget::All, Some(s)) => {
                &&& r@.len() == s.stickers@.len()
                &&& forall|i: int|
                    0 <= i < r@.len() ==> {
                        &&& (#[trigger] r@[i]).0@ == file_name_for(Some(i as u8), s.stickers@[i], format)
                        &&& r@[i].1@ == s.stickers@[i].file_id@
                    }
            },
            _ => {
                let idx = match set {
                    Some(s) => match position_in(s.stickers@, sticker.file_unique_id@) {
                        Some(i) => Some(i as u8),
                        None => None,
                    },
                    None => None,
                };
                &&& r@.len() == 1
                &&& r@[0].0@ == file_name_for(idx, *sticker, format)
                &&& r@[0].1@ == sticker.file_id@
            },
        },
{
    let mut out: Vec<(String, String)> = Vec::new();
    match (target, set) {
        (DownloadTarget::All, Some(s)) => {
            let mut i: usize = 0;
            while i < s.stickers.len()
                invariant
                    i <= s.stickers@.len(),
                    out@.len() == i,
                    forall|j: int|
                        0 <= j < i ==> {
                            &&& (#[trigger] out@[j]).0@ == file_name_for(Some(j as u8), s.stickers@[j], format)
                            &&& out@[j].1@ == s.stickers@[j].file_id@
                        },
                decreases s.stickers@.len() - i,
            {
                let m = &s.stickers[i];
                let name = sticker_file_name(Some(i as u8), m, format);
                out.push((name, m.file_id.clone()));
                i = i + 1;
            }
        },
        _ => {
            let idx = match set {
                Some(s) => match find_position(&s.stickers, &sticker.file_unique_id) {
                    Some(i) => Some(i as u8),
                    None => None,
                },
                None => None,
            };
            let name = sticker_file_name(idx, sticker, format);
            out.push((name, sticker.file_id.clone()));
        },
    }
    out
}

fn find_position(set: &Vec<StickerMeta>, uid: &String) -> (r: Option<usize>)
    ensures
        match r {
            Some(i) => position_in(set@, uid@) == Some(i as int),
            None => position_in(set@, uid@) is None,
        },
{
    let mut i: usize = 0;
    while i < set.len()
        invariant
            i <= set@.len(),
            position_in(set@.subrange(0, i as int), uid@) is None,
        decreases set@.len() - i,
    {
        let ghost pre = set@.subrange(0, i as int + 1);
        assert(pre.drop_last() =~= set@.subrange(0, i as int));
        if string_eq(&set[i].file_unique_id, uid) {
            proof {
                lemma_position_extends(set@, uid@, i as int + 1);
            }
            return Some(i);
        }
        i = i + 1;
    }
    assert(set@.subrange(0, set@.len() as int) =~= set@);
    None
}

/// A position found in a prefix is the position in the whole set.
proof fn lemma_position_extends(set: Seq<StickerMeta>, uid: Seq<char>, k: int)
    requires
        0 <= k <= set.len(),
        position_in(set.subrange(0, k), uid) is Some,
    ensures
        position_in(set, uid) == position_in(set.subrange(0, k), uid),
    decreases set.len() - k,
{
    if k < set.len() {
        let pre = set.subrange(0, k + 1);
        assert(pre.drop_last() =~= set.subrange(0, k));
        lemma_position_extends(set, uid, k + 1);
    } else {
        assert(set.subrange(0, k) =~= set);
    }
}

fn string_eq(a: &String, b: &String) -> (r: bool)
    ensures
        r == (a@ == b@),
{
    *a == *b
}

/// The outcome of one fetch: the file name and the received chunks, or the
/// fetch's error.
pub type Outcome<E> = (String, Result<Vec<Vec<u8>>, E>);

/// All fetched files, each with its chunks joined, when every fetch
/// succeeded; else the error of the first failed one in the given order.
pub fn gather_outcomes<E>(outcomes: Vec<Outcome<E>>) -> (r: Result<Vec<(String, Vec<u8>)>, E>)
    ensures
        r is Ok <==> forall|i: int| 0 <= i < outcomes@.len() ==> (#[trigger] outcomes@[i]).1 is Ok,
        r matches Ok(files) ==> {
            &&& files@.len() == outcomes@.len()
            &&& forall|i: int|
                0 <= i < files@.len() ==> {
                    &&& (#[trigger] files@[i]).0@ == outcomes@[i].0@
                    &&& files@[i].1@ == joined(outcomes@[i].1->Ok_0@)
                }
        },
        r matches Err(e) ==> exists|i: int|
            0 <= i < outcomes@.len() && (#[trigger] outcomes@[i]).1 == Err::<Vec<Vec<u8>>, E>(e)
                && forall|j: int| 0 <= j < i ==> (#[trigger] outcomes@[j]).1 is Ok,
{
    let ghost all = outcomes@;
    let mut rest = outcomes;
    let mut files: Vec<(String, Vec<u8>)> = Vec::new();
    let mut k: usize = 0;
    let total = rest.len();
    while rest.len() > 0
        invariant
            all == outcomes@,
            all.len() == total,
            k + rest@.len() == all.len(),
            rest@ == all.subrange(k as int, all.len() as int),
            files@.len() == k,
            forall|j: int| 0 <= j < k ==> (#[trigger] all[j]).1 is Ok,
            forall|j: int|
                0 <= j < k ==> {
                    &&& (#[trigger] files@[j]).0@ == all[j].0@
                    &&& files@[j].1@ == joined(all[j].1->Ok_0@)
                },
        decreases rest@.len(),
    {
        assert(rest@[0] == all[k as int]);
        let (name, res) = rest.remove(0);
        assert(all[k as int] == (name, res));
        assert(rest@ =~= all.subrange(k as int + 1, all.len() as int));
        match res {
            Ok(chunks) => {
                let bytes = join_chunks(&chunks);
                files.push((name, bytes));
            },
            Err(e) => {
                assert(all[k as int].1 == Err::<Vec<Vec<u8>>, E>(e));
                assert(!(outcomes@[k as int].1 is Ok));
                assert(forall|j: int| 0 <= j < k ==> (#[trigger] outcomes@[j]).1 is Ok);
                return Err(e);
            },
        }
        k = k + 1;
    }
    Ok(files)
}

/// The name of the extra entry that describes an archived set.
pub open spec fn manifest_name() -> Seq<char> {
    "sticker_info.json"@
}

/// What an archive made by `package` holds: the files, then the set's
/// description if there is one.
pub open spec fn package_entries(items: Seq<(String, Vec<u8>)>, manifest: Option<Vec<u8>>) -> Seq<
    (Seq<char>, EntryMethod, Seq<u8>),
> {
    match manifest {
        Some(m) => entries_of(items).push((manifest_name(), EntryMethod::Stored, m@)),
        None => entries_of(items),
    }
}

/// The base name of an archive: the set's name, or `stickers`.
pub open spec fn archive_base(set_name: Option<&str>) -> Seq<char> {
    match set_name {
        Some(n) => n@,
        None => "stickers"@,
    }
}

/// Makes the deliverable: one file alone when there is exactly one and the
/// format may be sent alone; else a stored archive of the files, with the
/// set's description appended when one is given. All or nothing; it
/// succeeds whenever every file fits in a plain archive entry.
pub fn package(
    set_name: Option<&str>,
    items: Vec<(String, Vec<u8>)>,
    format: DownloadFormat,
    manifest: Option<Vec<u8>>,
) -> (r: Result<NamedFile, PackageError>)
    ensures
        items@.len() == 1 && format.spec_fine_alone() ==> (r matches Ok(f) && f.name@
            == items@[0].0@ && f.bytes@ == items@[0].1@),
        !(items@.len() == 1 && format.spec_fine_alone()) && all_fit(items@) && (manifest matches Some(
            m,
        ) ==> m@.len() <= u32::MAX) ==> r is Ok,
        !(items@.len() == 1 && format.spec_fine_alone()) ==> (r matches Ok(f) ==> (f.name@
            == archive_base(set_name) + ".zip"@ && f.bytes@ == stored_zip(
            package_entries(items@, manifest),
        ))),
{
    let mut items = items;
    if items.len() == 1 && format.is_fine_for_sending_alone() {
        let (name, bytes) = items.remove(0);
        return Ok(NamedFile { name, bytes });
    }
    let ghost before = items@;
    match manifest {
        Some(m) => {
            items.push((String::from_str("sticker_info.json"), m));
            assert(entries_of(items@) =~= package_entries(before, manifest));
            assert(all_fit(before) && manifest.unwrap()@.len() <= u32::MAX ==> all_fit(items@)) by {
                if all_fit(before) && manifest.unwrap()@.len() <= u32::MAX {
                    assert forall|i: int| 0 <= i < items@.len() implies (#[trigger] items@[i]).1@.len()
                        <= u32::MAX by {
                        if i < before.len() {
                            assert(items@[i] == before[i]);
                        }
                    }
                }
            }
        },
        None => {},
    }
    let base = match set_name {
        Some(n) => n,
        None => "stickers",
    };
    archive(base, items)
}

/// `<b>text</b>`.
pub open spec fn bold(s: Seq<char>) -> Seq<char> {
    "<b>"@ + s + "</b>"@
}

/// A character as HTML text.
pub open spec fn escape_char(c: char) -> Seq<char> {
    if c == '&' {
        "&amp;"@
    } else if c == '<' {
        "&lt;"@
    } else if c == '>' {
        "&gt;"@
    } else {
        seq![c]
    }
}

/// A text with `&`, `<` and `>` written as HTML entities.
pub open spec fn html_escaped(s: Seq<char>) -> Seq<char>
    decreases s.len(),
{
    if s.len() == 0 {
        Seq::empty()
    } else {
        html_escaped(s.drop_last()) + escape_char(s.last())
    }
}

/// Relies on `teloxide::utils::html::escape`, which replaces `&`, then `<`,
/// then `>` by their entities.
#[verifier::external_body]
fn escape_html(s: &str) -> (r: String)
    ensures
        r@ == html_escaped(s@),
{
    teloxide::utils::html::escape(s)
}

/// The caption of a delivered file: the set's title and size, or nothing
/// for a sticker in no set.
pub open spec fn spec_caption(set: Option<&StickerSetMeta>) -> Seq<char> {
    match set {
        Some(s) => "Stickers set: "@ + bold(html_escaped(s.title@)) + "\nStickers in set: "@ + bold(
            decimal(s.stickers@.len()),
        ),
        None => Seq::empty(),
    }
}

pub fn format_caption(set: Option<&StickerSetMeta>) -> (r: String)
    ensures
        r@ == spec_caption(set),
{
    match set {
        Some(s) => {
            let title = escape_html(s.title.as_str());
            let mut out = String::from_str("Stickers set: ");
            out.append("<b>");
            out.append(title.as_str());
            out.append("</b>");
            out.append("\nStickers in set: ");
            out.append("<b>");
            push_decimal(&mut out, s.stickers.len() as u128);
            out.append("</b>");
            assert(out@ =~= spec_caption(set));
            out
        },
        None => String::new(),
    }
}

} // verus!
