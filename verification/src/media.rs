//! Media file paths and a model of the media directory.
//!
//! Each media file is addressed only through a path derived from the post
//! id: `assets/avatars/<id>.png` or `assets/images/<id>.png` on disk, and
//! the same paths under a leading slash in the feed.  The directory model
//! records every write verbatim; the process that performs the real file
//! writes uses the same derived paths.

use vstd::prelude::*;

use crate::digits::{dec_digits, u64_string};

verus! {

/// The two kinds of media a post can carry.
#[derive(Clone, Copy, Debug, PartialEq, Eq, Structural)]
pub enum MediaKind {
    Avatar,
    Image,
}

/// The on-disk path owed to an avatar of the post with this id.
pub open spec fn avatar_file_path_spec(id: u64) -> Seq<char> {
    "assets/avatars/"@ + dec_digits(id as nat) + ".png"@
}

/// The on-disk path owed to an image of the post with this id.
pub open spec fn image_file_path_spec(id: u64) -> Seq<char> {
    "assets/images/"@ + dec_digits(id as nat) + ".png"@
}

/// The feed link owed to an avatar of the post with this id.
pub open spec fn avatar_link_spec(id: u64) -> Seq<char> {
    "/assets/avatars/"@ + dec_digits(id as nat) + ".png"@
}

/// The feed link owed to an image of the post with this id.
pub open spec fn image_link_spec(id: u64) -> Seq<char> {
    "/assets/images/"@ + dec_digits(id as nat) + ".png"@
}

/// The on-disk path of the media file of `kind` for the post with `id`.
pub open spec fn media_file_path_spec(kind: MediaKind, id: u64) -> Seq<char> {
    match kind {
        MediaKind::Avatar => avatar_file_path_spec(id),
        MediaKind::Image => image_file_path_spec(id),
    }
}

/// The on-disk path of the media file of `kind` for the post with `id`.
pub fn media_file_path(kind: MediaKind, id: u64) -> (p: String)
    ensures
        p@ == media_file_path_spec(kind, id),
{
    let mut p = match kind {
        MediaKind::Avatar => String::from_str("assets/avatars/"),
        MediaKind::Image => String::from_str("assets/images/"),
    };
    let digits = u64_string(id);
    p.append(digits.as_str());
    p.append(".png");
    p
}

/// The feed link of the media file of `kind` for the post with `id`.
pub fn media_link(kind: MediaKind, id: u64) -> (p: String)
    ensures
        kind == MediaKind::Avatar ==> p@ == avatar_link_spec(id),
        kind == MediaKind::Image ==> p@ == image_link_spec(id),
{
    let mut p = match kind {
        MediaKind::Avatar => String::from_str("/assets/avatars/"),
        MediaKind::Image => String::from_str("/assets/images/"),
    };
    let digits = u64_string(id);
    p.append(digits.as_str());
    p.append(".png");
    p
}

/// One recorded media write: a derived path and the bytes put there.
pub struct MediaEntry {
    pub path: String,
    pub bytes: Vec<u8>,
}

/// A model of the media directory: the sequence of writes, in order.
///
/// A later write to the same path stands for a silent overwrite; the model
/// keeps both entries and the later one governs.
pub struct MediaDir {
    pub files: Vec<MediaEntry>,
}

impl MediaDir {
    /// An empty media directory.
    pub fn new() -> (d: MediaDir)
        ensures
            d.files@.len() == 0,
    {
        MediaDir { files: Vec::new() }
    }

    /// Write `bytes` verbatim to the path derived from `kind` and `id`.
    ///
    /// In this model a write always succeeds; the process doing real file
    /// writes reports its failure as an `Io` error instead.
    pub fn write(&mut self, kind: MediaKind, id: u64, bytes: &[u8])
        ensures
            final(self).files@.len() == old(self).files@.len() + 1,
            final(self).files@.drop_last() == old(self).files@,
            final(self).files@.last().path@ == media_file_path_spec(kind, id),
            final(self).files@.last().bytes@ == bytes@,
    {
        let path = media_file_path(kind, id);
        let stored = vstd::slice::slice_to_vec(bytes);
        self.files.push(MediaEntry { path, bytes: stored });
        proof {
            assert(self.files@.drop_last() =~= old(self).files@);
        }
    }
}

} // verus!
