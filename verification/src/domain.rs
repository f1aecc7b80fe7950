//! The entities of the catalog. They are plain values: the store owns what
//! was persisted, the pipeline what is in flight.

use vstd::prelude::*;
use crate::genre_styles::Genre;
use crate::genre_styles::Style;
use crate::ids::ArtistId;
use crate::ids::ReleaseId;
use crate::ids::ReleaseTrackId;
use crate::ids::SongId;
use crate::quality::AudioQuality;
use crate::rating::AvgRating;
use crate::release_type::ReleaseType;

verus! {

/// An artist: the identity that works and credits refer to.
#[derive(Debug, Clone, PartialEq)]
pub struct Artist {
    pub id: ArtistId,
    /// The canonical name.
    pub name: String,
    /// Known variations of the name, in order.
    pub variations: Vec<String>,
    pub bio: Option<String>,
    /// Links to sites, in order.
    pub sites: Vec<String>,
}

/// A song: the abstract work, apart from any file.
#[derive(Debug, Clone, PartialEq)]
pub struct Song {
    pub id: SongId,
    pub title: String,
    /// The acoustic fingerprint identifier, if known.
    pub acoustid: Option<String>,
}

/// An image that belongs to a release.
#[derive(Debug, Clone, PartialEq)]
pub struct Artwork {
    /// Local path of the image file.
    pub path: String,
    pub mime_type: String,
    pub description: Option<String>,
    /// Hash of the image's content.
    pub hash: String,
    pub credits: Option<String>,
}

/// A release: what was published, with its tracks.
#[derive(Debug, Clone, PartialEq)]
pub struct Release {
    pub id: ReleaseId,
    pub title: String,
    /// The kinds of the release, in order.
    pub release_type: Vec<ReleaseType>,
    pub main_artist_ids: Vec<ArtistId>,
    pub release_tracks: Vec<ReleaseTrackId>,
    /// The date as the tags give it, in no fixed format.
    pub release_date: Option<String>,
    pub artworks: Vec<Artwork>,
    pub genres: Vec<Genre>,
    pub styles: Vec<Style>,
}

/// How users have received a song.
#[derive(Debug, Clone, PartialEq)]
pub struct SongStats {
    pub avg_rating: AvgRating,
    pub ratings: u32,
    pub comments: Vec<String>,
}

/// What an artist did on a track.
#[derive(Debug, Clone, Copy, PartialEq, Eq, Hash, Structural)]
pub enum ArtistRole {
    Performer,
    Featured,
    Composer,
    Producer,
    Remixer,
}

/// The credit of one artist on one track of a release.
#[derive(Debug, Clone, Copy, PartialEq, Eq, Structural)]
pub struct ReleaseTrackArtistCredit {
    pub release_track_id: ReleaseTrackId,
    pub artist_id: ArtistId,
    pub role: ArtistRole,
    /// Place of the credit among the credits of the track.
    pub position: Option<u32>,
}

/// The file of a track as the file system describes it.
#[derive(Debug, Clone, PartialEq)]
pub struct FileDetails {
    /// Absolute path of the file.
    pub path: String,
    /// Size in bytes.
    pub size: u64,
    /// Last modification, in seconds since the Unix epoch.
    pub modified: u64,
}

/// Further analysis of the audio of a track.
#[derive(Debug, Clone, PartialEq)]
pub struct AudioAnalysis {
    pub quality: Option<AudioQuality>,
    /// Feature vector, each component as the bits of its 32-bit encoding.
    pub features: Option<Vec<u32>>,
    /// Tempo in thousandths of a beat per minute.
    pub bpm: Option<u32>,
}

/// The technical properties of the audio of a track.
#[derive(Debug, Clone, PartialEq)]
pub struct AudioDetails {
    /// Duration in nanoseconds; zero where it is unknown.
    pub duration: u128,
    pub bitrate_kbps: Option<u32>,
    pub sample_rate_hz: Option<u32>,
    pub channels: Option<u8>,
    pub analysis: Option<AudioAnalysis>,
    pub fingerprint: Option<String>,
}

/// One track of one release: a song as a concrete file.
#[derive(Debug, Clone, PartialEq)]
pub struct ReleaseTrack {
    pub id: ReleaseTrackId,
    pub song_id: SongId,
    pub release_id: ReleaseId,
    pub track_number: u32,
    pub disc_number: u32,
    /// A title that holds for this release only.
    pub title_override: Option<String>,
    pub artist_credits: Vec<ReleaseTrackArtistCredit>,
    pub audio_details: AudioDetails,
    pub file_details: FileDetails,
}

/// What the probe of one file yields.
#[derive(Debug, Clone, PartialEq)]
pub struct ExtractedMetadata {
    pub song: Song,
    pub release: Option<Release>,
    pub track: Option<ReleaseTrack>,
}

} // verus!
