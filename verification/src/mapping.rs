//! The aliases of the canonical fields, those of the artists among them,
//! and the lookup of a field under its aliases.

use vstd::prelude::*;
use crate::tag_keys::tag_value;
use crate::tag_keys::TagMap;

verus! {

/// Aliases of the title.
pub const KEYS_TITLE: [&'static str; 5] = ["title", "tit2", "inam", "\u{a9}nam", "name"];

/// Aliases of the album.
pub const KEYS_ALBUM: [&'static str; 4] = ["album", "talb", "iprd", "\u{a9}alb"];

/// Aliases of the artist of a track.
pub const KEYS_ARTIST_TRACK: [&'static str; 5] = ["artist", "tpe1", "iart", "\u{a9}art", "auth"];

/// Aliases of the artist of an album.
pub const KEYS_ARTIST_ALBUM: [&'static str; 5] = [
    "album_artist",
    "album artist",
    "albumartist",
    "tpe2",
    "aart",
];

/// Aliases of the date.
pub const KEYS_DATE: [&'static str; 10] = [
    "date",
    "year",
    "original_year",
    "originalyear",
    "releasedate",
    "tdrc",
    "tyer",
    "tdor",
    "\u{a9}day",
    "icrd",
];

/// Aliases of the genre.
pub const KEYS_GENRE: [&'static str; 4] = ["genre", "tcon", "ignr", "\u{a9}gen"];

/// Aliases of the track number.
pub const KEYS_TRACK_NUMBER: [&'static str; 5] = ["track", "trck", "iprt", "itrk", "trkn"];

/// Aliases of the disc number.
pub const KEYS_DISC_NUMBER: [&'static str; 3] = ["disc", "tpos", "disk"];

/// Looks a field up under its aliases, in order: the first value that is not
/// blank, trimmed.
pub fn find_tag_value(tags: &TagMap, keys: &[&str]) -> (r: Option<String>)
    ensures
        r is Some <==> tag_value(tags@, keys@) is Some,
        r matches Some(value) ==> Some(value@) == tag_value(tags@, keys@) && value@.len() > 0,
{
    crate::tag_keys::find_tag_value(tags, keys)
}

} // verus!
