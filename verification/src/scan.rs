//! The interfaces between the service and its collaborators, and what a
//! scan of the library hands to the service: files grouped by the
//! device they lie on.

use vstd::prelude::*;
use crate::domain::Artist;
use crate::domain::ExtractedMetadata;
use crate::domain::Release;
use crate::domain::ReleaseTrack;
use crate::domain::Song;
use crate::errors::MetadataError;
use crate::errors::RepoError;
use crate::errors::ScanError;
use crate::ids::ArtistId;
use crate::ids::ReleaseId;
use crate::ids::ReleaseTrackId;
use crate::ids::SongId;

verus! {

/// A file that the scanner found.
#[derive(Debug, PartialEq, Eq)]
pub struct ScannedFile {
    pub path: String,
    pub size_bytes: u64,
    pub modified_unix: u64,
}

impl Clone for ScannedFile {
    fn clone(&self) -> (r: Self)
        ensures
            r == *self,
    {
        ScannedFile {
            path: self.path.clone(),
            size_bytes: self.size_bytes,
            modified_unix: self.modified_unix,
        }
    }
}

/// A logical storage device. The scanner chooses the form of `id`.
#[derive(Debug, PartialEq, Eq)]
pub struct ScanDevice {
    pub id: String,
    /// Read bandwidth in MiB/s, where the scanner measured it.
    pub bandwidth_mb_s: Option<u64>,
}

impl Clone for ScanDevice {
    fn clone(&self) -> (r: Self)
        ensures
            r == *self,
    {
        ScanDevice { id: self.id.clone(), bandwidth_mb_s: self.bandwidth_mb_s }
    }
}

/// The files of one device.
#[derive(Debug, Clone, PartialEq, Eq)]
pub struct ScanGroup {
    pub device: ScanDevice,
    pub files: Vec<ScannedFile>,
}

/// A scanner of the library's files. It returns the files it found, grouped
/// by device.
pub trait FileScanner {
    fn scan_library_files(&self) -> Result<Vec<ScanGroup>, ScanError>;
}

/// The observer of a long operation on many files.
pub trait ProgressReporter {
    /// The operation starts; `total_files` files will be reported.
    fn start(&self, total_files: usize);

    /// One file was processed.
    fn on_success(&self, path: &str);

    /// One file failed; the operation goes on.
    fn on_error(&self, path: &str, error: &str);

    /// The operation is over.
    fn finish(&self);
}

/// A reader of the metadata of audio files. It returns the song of the
/// file at the path and, where they can be told, its release and track.
pub trait MetadataExtractor {
    fn extract_from_path(&self, path: &str) -> Result<ExtractedMetadata, MetadataError>;
}

/// A repository of the catalog's entities.
pub trait LibraryRepository {
    fn save_song(&self, song: &Song) -> Result<(), RepoError>;

    fn save_artist(&self, artist: &Artist) -> Result<(), RepoError>;

    fn save_release(&self, release: &Release) -> Result<(), RepoError>;

    fn save_track(&self, track: &ReleaseTrack) -> Result<(), RepoError>;

    fn find_song(&self, id: SongId) -> Result<Option<Song>, RepoError>;

    fn find_artist(&self, id: ArtistId) -> Result<Option<Artist>, RepoError>;

    fn find_release(&self, id: ReleaseId) -> Result<Option<Release>, RepoError>;

    fn find_track(&self, id: ReleaseTrackId) -> Result<Option<ReleaseTrack>, RepoError>;
}

} // verus!
