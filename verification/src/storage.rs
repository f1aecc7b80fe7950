//! The rows of the store and how entities become rows and rows entities.
//!
//! The store keeps the main columns of each entity: name and bio of an
//! artist, title and acoustid of a song, title and date of a release.
//! Identifiers are kept as their canonical text.

use vstd::prelude::*;
use crate::domain::Artist;
use crate::domain::Release;
use crate::domain::Song;
use crate::errors::CoreError;
use crate::errors::prefixed;
use crate::ids::ArtistId;
use crate::ids::hyphenated_text;
use crate::ids::parsed_uuid;
use crate::ids::ReleaseId;
use crate::ids::SongId;

verus! {

/// A row of the table of artists.
#[derive(Debug, PartialEq, Eq)]
pub struct ArtistRow {
    pub id: String,
    pub name: String,
    pub bio: Option<String>,
    pub created_at: String,
    pub updated_at: String,
}

/// What is written for an artist.
#[derive(Debug, PartialEq, Eq)]
pub struct NewArtistRow {
    pub id: String,
    pub name: String,
    pub bio: Option<String>,
}

/// A row of the table of songs.
#[derive(Debug, PartialEq, Eq)]
pub struct SongRow {
    pub id: String,
    pub title: String,
    pub acoustid: Option<String>,
    pub created_at: String,
    pub updated_at: String,
}

/// What is written for a song.
#[derive(Debug, PartialEq, Eq)]
pub struct NewSongRow {
    pub id: String,
    pub title: String,
    pub acoustid: Option<String>,
}

/// A row of the table of releases.
#[derive(Debug, PartialEq, Eq)]
pub struct ReleaseRow {
    pub id: String,
    pub title: String,
    pub release_date: Option<String>,
    pub created_at: String,
    pub updated_at: String,
}

/// What is written for a release.
#[derive(Debug, PartialEq, Eq)]
pub struct NewReleaseRow {
    pub id: String,
    pub title: String,
    pub release_date: Option<String>,
}

/// A copy of an optional text.
pub fn copy_opt(s: &Option<String>) -> (r: Option<String>)
    ensures
        r == *s,
{
    match s {
        Some(text) => Some(text.clone()),
        None => None,
    }
}

/// The row that is written for an artist: the identifier as text, name and
/// bio.
pub fn artist_to_new_row(artist: &Artist) -> (row: NewArtistRow)
    ensures
        row.id@ == hyphenated_text(artist.id@),
        row.name == artist.name,
        row.bio == artist.bio,
{
    NewArtistRow {
        id: artist.id.to_string(),
        name: artist.name.clone(),
        bio: copy_opt(&artist.bio),
    }
}

/// The row that is written for a song: the identifier as text, title and
/// acoustid.
pub fn song_to_new_row(song: &Song) -> (row: NewSongRow)
    ensures
        row.id@ == hyphenated_text(song.id@),
        row.title == song.title,
        row.acoustid == song.acoustid,
{
    NewSongRow {
        id: song.id.to_string(),
        title: song.title.clone(),
        acoustid: copy_opt(&song.acoustid),
    }
}

/// The row that is written for a release: the identifier as text, title and
/// date.
pub fn release_to_new_row(release: &Release) -> (row: NewReleaseRow)
    ensures
        row.id@ == hyphenated_text(release.id@),
        row.title == release.title,
        row.release_date == release.release_date,
{
    NewReleaseRow {
        id: release.id.to_string(),
        title: release.title.clone(),
        release_date: copy_opt(&release.release_date),
    }
}

/// Whether `artist` is what a row of the table of artists stands for: the
/// main columns, without variations or sites.
pub open spec fn is_artist_of(row: ArtistRow, artist: Artist) -> bool {
    &&& parsed_uuid(row.id@) == Some(artist.id@)
    &&& artist.name == row.name
    &&& artist.bio == row.bio
    &&& artist.variations@.len() == 0
    &&& artist.sites@.len() == 0
}

/// Whether `song` is what a row of the table of songs stands for.
pub open spec fn is_song_of(row: SongRow, song: Song) -> bool {
    &&& parsed_uuid(row.id@) == Some(song.id@)
    &&& song.title == row.title
    &&& song.acoustid == row.acoustid
}

/// Whether `release` is what a row of the table of releases stands for: the
/// main columns, without kinds, artists, tracks, artworks, genres or styles.
pub open spec fn is_release_of(row: ReleaseRow, release: Release) -> bool {
    &&& parsed_uuid(row.id@) == Some(release.id@)
    &&& release.title == row.title
    &&& release.release_date == row.release_date
    &&& release.release_type@.len() == 0
    &&& release.main_artist_ids@.len() == 0
    &&& release.release_tracks@.len() == 0
    &&& release.artworks@.len() == 0
    &&& release.genres@.len() == 0
    &&& release.styles@.len() == 0
}

/// The artist of a row, if the row's identifier is the text of a UUID.
pub fn try_row_to_artist(row: ArtistRow) -> (r: Option<Artist>)
    ensures
        r is Some <==> parsed_uuid(row.id@) is Some,
        r matches Some(artist) ==> is_artist_of(row, artist),
{
    match ArtistId::parse(row.id.as_str()) {
        Some(_) => Some(row_to_artist(row)),
        None => None,
    }
}

/// The artist of a row whose identifier is the text of a UUID, as every row
/// is that the store wrote.
pub fn row_to_artist(row: ArtistRow) -> (artist: Artist)
    requires
        parsed_uuid(row.id@) is Some,
    ensures
        is_artist_of(row, artist),
{
    let id = match ArtistId::parse(row.id.as_str()) {
        Some(id) => id,
        None => vstd::pervasive::unreached(),
    };
    Artist { id, name: row.name, variations: Vec::new(), bio: row.bio, sites: Vec::new() }
}

/// The song of a row, if the row's identifier is the text of a UUID.
pub fn try_row_to_song(row: SongRow) -> (r: Option<Song>)
    ensures
        r is Some <==> parsed_uuid(row.id@) is Some,
        r matches Some(song) ==> is_song_of(row, song),
{
    match SongId::parse(row.id.as_str()) {
        Some(_) => Some(row_to_song(row)),
        None => None,
    }
}

/// The song of a row whose identifier is the text of a UUID.
pub fn row_to_song(row: SongRow) -> (song: Song)
    requires
        parsed_uuid(row.id@) is Some,
    ensures
        is_song_of(row, song),
{
    let id = match SongId::parse(row.id.as_str()) {
        Some(id) => id,
        None => vstd::pervasive::unreached(),
    };
    Song { id, title: row.title, acoustid: row.acoustid }
}

/// The release of a row, if the row's identifier is the text of a UUID.
pub fn try_row_to_release(row: ReleaseRow) -> (r: Option<Release>)
    ensures
        r is Some <==> parsed_uuid(row.id@) is Some,
        r matches Some(release) ==> is_release_of(row, release),
{
    match ReleaseId::parse(row.id.as_str()) {
        Some(_) => Some(row_to_release(row)),
        None => None,
    }
}

/// The release of a row whose identifier is the text of a UUID.
pub fn row_to_release(row: ReleaseRow) -> (release: Release)
    requires
        parsed_uuid(row.id@) is Some,
    ensures
        is_release_of(row, release),
{
    let id = match ReleaseId::parse(row.id.as_str()) {
        Some(id) => id,
        None => vstd::pervasive::unreached(),
    };
    Release {
        id,
        title: row.title,
        release_type: Vec::new(),
        main_artist_ids: Vec::new(),
        release_tracks: Vec::new(),
        release_date: row.release_date,
        artworks: Vec::new(),
        genres: Vec::new(),
        styles: Vec::new(),
    }
}

/// A step of the store at which the database may fail.
#[derive(Debug, Clone, Copy, PartialEq, Eq, Structural)]
pub enum StoreStep {
    /// The path of the database is no valid text.
    Path,
    /// The connection pool could not be built.
    Pool,
    /// No connection could be had while the store was set up.
    Setup,
    /// The journal mode could not be set.
    Journal,
    /// The schema could not be brought up to date.
    Migration,
    /// No connection could be had for an operation.
    Connection,
    /// A statement failed.
    Statement,
}

/// The message of a failure of the database at a step of the store.
pub open spec fn store_message(step: StoreStep, detail: Seq<char>) -> Seq<char> {
    match step {
        StoreStep::Path => "Invalid db path"@,
        StoreStep::Pool => "Pool error: "@ + detail,
        StoreStep::Setup => detail,
        StoreStep::Journal => "wal error: "@ + detail,
        StoreStep::Migration => "migration error: "@ + detail,
        StoreStep::Connection => "connection error: "@ + detail,
        StoreStep::Statement => detail,
    }
}

/// The error of the store for a failure of the database at a step.
pub fn store_error(step: StoreStep, detail: &str) -> (e: CoreError)
    ensures
        e matches CoreError::Repository(m) && m@ == store_message(step, detail@),
{
    let m = match step {
        StoreStep::Path => String::from_str("Invalid db path"),
        StoreStep::Pool => prefixed("Pool error: ", detail),
        StoreStep::Setup => String::from_str(detail),
        StoreStep::Journal => prefixed("wal error: ", detail),
        StoreStep::Migration => prefixed("migration error: ", detail),
        StoreStep::Connection => prefixed("connection error: ", detail),
        StoreStep::Statement => String::from_str(detail),
    };
    CoreError::Repository(m)
}

/// The statement that sets the journal mode of the database.
pub fn journal_pragma(mode: &str) -> (sql: String)
    ensures
        sql@ == "PRAGMA journal_mode = "@ + mode@,
{
    prefixed("PRAGMA journal_mode = ", mode)
}

} // verus!
