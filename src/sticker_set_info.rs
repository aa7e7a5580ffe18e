//! What the platform tells of a sticker set, and the description of a set
//! that goes into its archive.

use vstd::prelude::*;

verus! {

/// One sticker as the platform describes it.
pub struct StickerMeta {
    pub file_id: String,
    pub file_unique_id: String,
    pub width: u16,
    pub height: u16,
    pub emoji: Option<String>,
    pub is_animated: bool,
    pub is_video: bool,
}

/// A sticker set as the platform describes it.
pub struct StickerSetMeta {
    pub name: String,
    pub title: String,
    pub is_animated: bool,
    pub is_video: bool,
    pub stickers: Vec<StickerMeta>,
}

#[derive(Copy, Clone, Debug, PartialEq, Eq, Structural)]
pub enum StickerSetKind {
    Common,
    Animated,
    Video,
}

/// One archived sticker: its file name in the archive, what the platform
/// tells of it, and its size in bytes.
pub struct StickerInfo {
    pub path: String,
    pub file_unique_id: String,
    pub width: u16,
    pub height: u16,
    pub emoji: Option<String>,
    pub size_bytes: u64,
}

/// The description of an archived set.
pub struct StickerSetInfo {
    pub name: String,
    pub title: String,
    pub kind: StickerSetKind,
    pub stickers: Vec<StickerInfo>,
}

/// A set is animated if it says so, else a video set if it says so, else common.
pub open spec fn kind_of(is_animated: bool, is_video: bool) -> StickerSetKind {
    if is_animated {
        StickerSetKind::Animated
    } else if is_video {
        StickerSetKind::Video
    } else {
        StickerSetKind::Common
    }
}

pub open spec fn opt_view(o: Option<String>) -> Option<Seq<char>> {
    match o {
        Some(s) => Some(s@),
        None => None,
    }
}

fn clone_opt(o: &Option<String>) -> (r: Option<String>)
    ensures
        opt_view(r) == opt_view(*o),
{
    match o {
        Some(s) => Some(s.clone()),
        None => None,
    }
}

impl StickerSetInfo {
    /// Describes `set`, whose stickers were archived as `stickers`, pair by
    /// pair in order, as far as both lists go.
    pub fn new(set: &StickerSetMeta, stickers: &Vec<(String, Vec<u8>)>) -> (r: StickerSetInfo)
        ensures
            r.name@ == set.name@,
            r.title@ == set.title@,
            r.kind == kind_of(set.is_animated, set.is_video),
            r.stickers@.len() == if set.stickers@.len() <= stickers@.len() {
                set.stickers@.len()
            } else {
                stickers@.len()
            },
            forall|i: int|
                0 <= i < r.stickers@.len() ==> {
                    let s = #[trigger] r.stickers@[i];
                    let m = set.stickers@[i];
                    &&& s.path@ == stickers@[i].0@
                    &&& s.file_unique_id@ == m.file_unique_id@
                    &&& s.width == m.width
                    &&& s.height == m.height
                    &&& opt_view(s.emoji) == opt_view(m.emoji)
                    &&& s.size_bytes == stickers@[i].1@.len()
                },
    {
        let kind = if set.is_animated {
            StickerSetKind::Animated
        } else if set.is_video {
            StickerSetKind::Video
        } else {
            StickerSetKind::Common
        };
        let n = if set.stickers.len() <= stickers.len() {
            set.stickers.len()
        } else {
            stickers.len()
        };
        let mut infos: Vec<StickerInfo> = Vec::new();
        let mut i: usize = 0;
        while i < n
            invariant
                n <= set.stickers@.len(),
                n <= stickers@.len(),
                i <= n,
                infos@.len() == i,
                forall|j: int|
                    0 <= j < i ==> {
                        let s = #[trigger] infos@[j];
                        let m = set.stickers@[j];
                        &&& s.path@ == stickers@[j].0@
                        &&& s.file_unique_id@ == m.file_unique_id@
                        &&& s.width == m.width
                        &&& s.height == m.height
                        &&& opt_view(s.emoji) == opt_view(m.emoji)
                        &&& s.size_bytes == stickers@[j].1@.len()
                    },
            decreases n - i,
        {
            let m = &set.stickers[i];
            let (path, bytes) = (&stickers[i].0, &stickers[i].1);
            infos.push(
                StickerInfo {
                    path: path.clone(),
                    file_unique_id: m.file_unique_id.clone(),
                    width: m.width,
                    height: m.height,
                    emoji: clone_opt(&m.emoji),
                    size_bytes: bytes.len() as u64,
                },
            );
            i = i + 1;
        }
        StickerSetInfo { name: set.name.clone(), title: set.title.clone(), kind, stickers: infos }
    }
}

} // verus!
