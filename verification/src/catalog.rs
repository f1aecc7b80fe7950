//! The catalog: what a store holds, and what saving and finding mean.
//!
//! A store keeps one row for each identifier. Saving is an upsert: a new
//! identifier adds a row at the end, a known one has the main columns of its
//! row overwritten in place. A track belongs to a song and a release, and
//! is saved only after them.

use vstd::prelude::*;
use crate::domain::Artist;
use crate::domain::Release;
use crate::domain::ReleaseTrack;
use crate::domain::Song;
use crate::errors::CoreError;
use crate::ids::ArtistId;
use crate::ids::ReleaseId;
use crate::ids::ReleaseTrackId;
use crate::ids::SongId;
use crate::storage::copy_opt;
use crate::tracks::find_track_row;
use crate::tracks::is_stored_track;
use crate::tracks::lemma_track_upsert_finds;
use crate::tracks::lemma_track_upsert_idempotent;
use crate::tracks::stored_track;
use crate::tracks::track_of;
use crate::tracks::track_row;
use crate::tracks::track_row_of;
use crate::tracks::TrackRow;
use crate::tracks::upsert_track;
use crate::tracks::with_track_row;

verus! {

/// The main columns of one entity under its identifier.
#[derive(Debug, PartialEq, Eq)]
pub struct StoredRow {
    pub id: u128,
    /// Name of an artist, title of a song or release.
    pub primary: String,
    /// Bio of an artist, acoustid of a song, date of a release.
    pub secondary: Option<String>,
}

/// The index of the first row from `from` on with the given identifier, or
/// the number of rows if there is none.
pub open spec fn position_of(rows: Seq<StoredRow>, id: u128, from: int) -> int
    decreases rows.len() - from,
{
    if from < 0 || from >= rows.len() {
        rows.len() as int
    } else if rows[from].id == id {
        from
    } else {
        position_of(rows, id, from + 1)
    }
}

/// The row with the given identifier, if there is one.
pub open spec fn row_of(rows: Seq<StoredRow>, id: u128) -> Option<StoredRow> {
    let at = position_of(rows, id, 0);
    if at < rows.len() {
        Some(rows[at])
    } else {
        None
    }
}

/// The rows after an upsert: the row replaces the one that has its
/// identifier, or is added at the end.
pub open spec fn upserted(rows: Seq<StoredRow>, row: StoredRow) -> Seq<StoredRow> {
    let at = position_of(rows, row.id, 0);
    if at < rows.len() {
        rows.update(at, row)
    } else {
        rows.push(row)
    }
}

/// No two rows have one identifier.
pub open spec fn unique_ids(rows: Seq<StoredRow>) -> bool {
    forall|i: int, j: int|
        0 <= i < j < rows.len() ==> (#[trigger] rows[i]).id != (#[trigger] rows[j]).id
}

/// Where `position_of` points: at a row with the identifier, before which
/// no row has it; or past the end, and then no row has it.
pub proof fn lemma_position(rows: Seq<StoredRow>, id: u128, from: int)
    requires
        0 <= from <= rows.len(),
    ensures
        from <= position_of(rows, id, from) <= rows.len(),
        position_of(rows, id, from) < rows.len() ==> rows[position_of(rows, id, from)].id == id,
        forall|i: int| from <= i < position_of(rows, id, from) ==> (#[trigger] rows[i]).id != id,
    decreases rows.len() - from,
{
    if from < rows.len() && rows[from].id != id {
        lemma_position(rows, id, from + 1);
    }
}

proof fn lemma_position_at(rows: Seq<StoredRow>, id: u128, from: int, at: int)
    requires
        0 <= from <= at < rows.len(),
        rows[at].id == id,
        forall|i: int| from <= i < at ==> (#[trigger] rows[i]).id != id,
    ensures
        position_of(rows, id, from) == at,
    decreases at - from,
{
    if from < at {
        lemma_position_at(rows, id, from + 1, at);
    }
}

proof fn lemma_position_none(rows: Seq<StoredRow>, id: u128, from: int)
    requires
        0 <= from <= rows.len(),
        forall|i: int| from <= i < rows.len() ==> (#[trigger] rows[i]).id != id,
    ensures
        position_of(rows, id, from) == rows.len(),
    decreases rows.len() - from,
{
    if from < rows.len() {
        lemma_position_none(rows, id, from + 1);
    }
}

/// What was saved is found: after an upsert the row is the row of its
/// identifier.
pub proof fn lemma_upsert_finds(rows: Seq<StoredRow>, row: StoredRow)
    ensures
        row_of(upserted(rows, row), row.id) == Some(row),
{
    lemma_position(rows, row.id, 0);
    let at = position_of(rows, row.id, 0);
    let after = upserted(rows, row);
    assert forall|i: int| 0 <= i < at implies (#[trigger] after[i]).id != row.id by {
        assert(after[i] == rows[i]);
    }
    lemma_position_at(after, row.id, 0, at);
}

/// An upsert leaves every other identifier as it was.
pub proof fn lemma_upsert_keeps_others(rows: Seq<StoredRow>, row: StoredRow, id: u128)
    requires
        id != row.id,
    ensures
        row_of(upserted(rows, row), id) == row_of(rows, id),
{
    lemma_position(rows, row.id, 0);
    lemma_position(rows, id, 0);
    let at = position_of(rows, row.id, 0);
    let p = position_of(rows, id, 0);
    let after = upserted(rows, row);
    if p < rows.len() {
        assert(p != at);
        assert forall|i: int| 0 <= i < p implies (#[trigger] after[i]).id != id by {
            if i != at {
                assert(after[i] == rows[i]);
            }
        }
        assert(after[p] == rows[p]);
        lemma_position_at(after, id, 0, p);
    } else {
        assert forall|i: int| 0 <= i < after.len() implies (#[trigger] after[i]).id != id by {
            if i != at {
                assert(after[i] == rows[i]);
            }
        }
        lemma_position_none(after, id, 0);
    }
}

/// Upsert is idempotent: saving the same row again changes nothing, neither
/// the number of rows nor their content.
pub proof fn lemma_upsert_idempotent(rows: Seq<StoredRow>, row: StoredRow)
    ensures
        upserted(upserted(rows, row), row) == upserted(rows, row),
{
    lemma_position(rows, row.id, 0);
    let at = position_of(rows, row.id, 0);
    let after = upserted(rows, row);
    assert forall|i: int| 0 <= i < at implies (#[trigger] after[i]).id != row.id by {
        assert(after[i] == rows[i]);
    }
    lemma_position_at(after, row.id, 0, at);
    assert(after.update(at, row) == after);
}

/// An upsert adds a row for a new identifier and none for a known one, and
/// keeps identifiers unique.
pub proof fn lemma_upsert_rows(rows: Seq<StoredRow>, row: StoredRow)
    ensures
        upserted(rows, row).len() == if row_of(rows, row.id) is Some {
            rows.len()
        } else {
            rows.len() + 1
        },
        unique_ids(rows) ==> unique_ids(upserted(rows, row)),
{
    lemma_position(rows, row.id, 0);
    let at = position_of(rows, row.id, 0);
    let after = upserted(rows, row);
    if unique_ids(rows) {
        assert forall|i: int, j: int| 0 <= i < j < after.len() implies (#[trigger] after[i]).id != (
        #[trigger] after[j]).id by {
            if at < rows.len() {
                if i != at {
                    assert(after[i] == rows[i]);
                }
                if j != at {
                    assert(after[j] == rows[j]);
                }
                assert(rows[at].id == row.id);
            } else {
                assert(after[i] == rows[i]);
                if j < rows.len() {
                    assert(after[j] == rows[j]);
                }
            }
        }
    }
}

/// Upserts a row.
pub fn upsert(rows: &mut Vec<StoredRow>, row: StoredRow)
    ensures
        final(rows)@ == upserted(old(rows)@, row),
{
    let mut i: usize = 0;
    while i < rows.len()
        invariant
            i <= rows.len(),
            rows@ == old(rows)@,
            position_of(rows@, row.id, 0) == position_of(rows@, row.id, i as int),
        decreases rows.len() - i,
    {
        if rows[i].id == row.id {
            rows.set(i, row);
            return ;
        }
        i += 1;
    }
    rows.push(row);
}

/// Finds the row of an identifier.
pub fn find(rows: &Vec<StoredRow>, id: u128) -> (r: Option<&StoredRow>)
    ensures
        r is Some <==> row_of(rows@, id) is Some,
        r matches Some(row) ==> row_of(rows@, id) == Some(*row),
{
    let mut i: usize = 0;
    while i < rows.len()
        invariant
            i <= rows.len(),
            position_of(rows@, id, 0) == position_of(rows@, id, i as int),
        decreases rows.len() - i,
    {
        if rows[i].id == id {
            return Some(&rows[i]);
        }
        i += 1;
    }
    None
}

/// The contents of a store.
pub struct Catalog {
    pub artists: Seq<StoredRow>,
    pub songs: Seq<StoredRow>,
    pub releases: Seq<StoredRow>,
    pub tracks: Seq<TrackRow>,
}

/// The row that is kept of an artist: name and bio.
pub open spec fn artist_row(artist: Artist) -> StoredRow {
    StoredRow { id: artist.id@, primary: artist.name, secondary: artist.bio }
}

/// The row that is kept of a song: title and acoustid.
pub open spec fn song_row(song: Song) -> StoredRow {
    StoredRow { id: song.id@, primary: song.title, secondary: song.acoustid }
}

/// The row that is kept of a release: title and date.
pub open spec fn release_row(release: Release) -> StoredRow {
    StoredRow { id: release.id@, primary: release.title, secondary: release.release_date }
}

/// Whether `artist` is the artist that a row stands for: the main columns,
/// without variations or sites.
pub open spec fn is_stored_artist(row: StoredRow, artist: Artist) -> bool {
    &&& artist.id@ == row.id
    &&& artist.name == row.primary
    &&& artist.bio == row.secondary
    &&& artist.variations@.len() == 0
    &&& artist.sites@.len() == 0
}

/// Whether `song` is the song that a row stands for.
pub open spec fn is_stored_song(row: StoredRow, song: Song) -> bool {
    &&& song.id@ == row.id
    &&& song.title == row.primary
    &&& song.acoustid == row.secondary
}

/// Whether `release` is the release that a row stands for: the main
/// columns, all lists empty.
pub open spec fn is_stored_release(row: StoredRow, release: Release) -> bool {
    &&& release.id@ == row.id
    &&& release.title == row.primary
    &&& release.release_date == row.secondary
    &&& release.release_type@.len() == 0
    &&& release.main_artist_ids@.len() == 0
    &&& release.release_tracks@.len() == 0
    &&& release.artworks@.len() == 0
    &&& release.genres@.len() == 0
    &&& release.styles@.len() == 0
}

impl Catalog {
    /// The catalog after an artist was saved.
    pub open spec fn with_artist(self, artist: Artist) -> Catalog {
        Catalog { artists: upserted(self.artists, artist_row(artist)), ..self }
    }

    /// The catalog after a song was saved.
    pub open spec fn with_song(self, song: Song) -> Catalog {
        Catalog { songs: upserted(self.songs, song_row(song)), ..self }
    }

    /// The catalog after a release was saved.
    pub open spec fn with_release(self, release: Release) -> Catalog {
        Catalog { releases: upserted(self.releases, release_row(release)), ..self }
    }

    /// The catalog after a track was saved.
    pub open spec fn with_track(self, track: ReleaseTrack) -> Catalog {
        Catalog { tracks: with_track_row(self.tracks, track_row_of(track)), ..self }
    }

    /// Whether the catalog takes a track: it holds the song and the release
    /// that the track belongs to.
    pub open spec fn admits(self, track: ReleaseTrack) -> bool {
        &&& row_of(self.songs, track.song_id@) is Some
        &&& row_of(self.releases, track.release_id@) is Some
    }
}

/// The message of a track that the store does not take.
pub open spec fn unknown_parent_message() -> Seq<char> {
    "track refers to a song or release that is not stored"@
}

/// The error of a track that the store does not take.
pub fn unknown_parent() -> (e: CoreError)
    ensures
        e matches CoreError::Repository(m) && m@ == unknown_parent_message(),
{
    CoreError::Repository("track refers to a song or release that is not stored".to_string())
}

/// Saving is idempotent: a second save of the same entity leaves the
/// catalog as the first left it.
pub proof fn lemma_save_idempotent(
    c: Catalog,
    artist: Artist,
    song: Song,
    release: Release,
    track: ReleaseTrack,
)
    ensures
        c.with_artist(artist).with_artist(artist) == c.with_artist(artist),
        c.with_song(song).with_song(song) == c.with_song(song),
        c.with_release(release).with_release(release) == c.with_release(release),
        c.with_track(track).with_track(track) == c.with_track(track),
{
    lemma_track_upsert_idempotent(c.tracks, track_row_of(track));
    lemma_upsert_idempotent(c.artists, artist_row(artist));
    lemma_upsert_idempotent(c.songs, song_row(song));
    lemma_upsert_idempotent(c.releases, release_row(release));
}

/// What was saved is found under its identifier, with the columns that were
/// saved.
pub proof fn lemma_saved_is_found(
    c: Catalog,
    artist: Artist,
    song: Song,
    release: Release,
    track: ReleaseTrack,
)
    ensures
        row_of(c.with_artist(artist).artists, artist.id@) == Some(artist_row(artist)),
        row_of(c.with_song(song).songs, song.id@) == Some(song_row(song)),
        row_of(c.with_release(release).releases, release.id@) == Some(release_row(release)),
        track_of(c.with_track(track).tracks, track.id@) == Some(track_row_of(track)),
{
    lemma_track_upsert_finds(c.tracks, track_row_of(track));
    lemma_upsert_finds(c.artists, artist_row(artist));
    lemma_upsert_finds(c.songs, song_row(song));
    lemma_upsert_finds(c.releases, release_row(release));
}

/// The catalog after the song of a file was saved, then its release, then
/// its track, each where the file has one.
pub open spec fn persisted(
    c: Catalog,
    song: Song,
    release: Option<Release>,
    track: Option<ReleaseTrack>,
) -> Catalog {
    let with_song = c.with_song(song);
    let with_release = match release {
        Some(found) => with_song.with_release(found),
        None => with_song,
    };
    match track {
        Some(found) => with_release.with_track(found),
        None => with_release,
    }
}

/// Of a file that was persisted the song is found under its identifier, and
/// so are its release and its track where it has them. A track of that song
/// and that release is taken by the store once the two are saved.
pub proof fn lemma_persisted_is_found(
    c: Catalog,
    song: Song,
    release: Option<Release>,
    track: Option<ReleaseTrack>,
)
    ensures
        row_of(persisted(c, song, release, track).songs, song.id@) == Some(song_row(song)),
        release matches Some(found) ==> row_of(
            persisted(c, song, release, track).releases,
            found.id@,
        ) == Some(release_row(found)),
        track matches Some(found) ==> track_of(persisted(c, song, release, track).tracks, found.id@)
            == Some(track_row_of(found)),
        (release matches Some(r) && track matches Some(t) && t.song_id@ == song.id@ && t.release_id@
            == r.id@) ==> c.with_song(song).with_release(release->0).admits(track->0),
{
    lemma_upsert_finds(c.songs, song_row(song));
    if let Some(found) = release {
        lemma_upsert_finds(c.with_song(song).releases, release_row(found));
    }
    if let Some(found) = track {
        lemma_track_upsert_finds(c.tracks, track_row_of(found));
    }
}

/// A store of the catalog, for its users to implement. `save_*` upserts by
/// identifier and touches the main columns only; `find_*` and `list_*` give
/// each entity as its row stands for it. A track is saved after its song
/// and its release. What that means is laid down by `Catalog` and shown by
/// `MemoryStore`.
pub trait Library {
    fn save_artist(&mut self, artist: &Artist) -> Result<(), CoreError>;

    fn save_song(&mut self, song: &Song) -> Result<(), CoreError>;

    fn save_release(&mut self, release: &Release) -> Result<(), CoreError>;

    fn save_track(&mut self, track: &ReleaseTrack) -> Result<(), CoreError>;

    fn find_artist(&self, id: ArtistId) -> Result<Option<Artist>, CoreError>;

    fn find_song(&self, id: SongId) -> Result<Option<Song>, CoreError>;

    fn find_release(&self, id: ReleaseId) -> Result<Option<Release>, CoreError>;

    fn find_track(&self, id: ReleaseTrackId) -> Result<Option<ReleaseTrack>, CoreError>;

    fn list_artists(&self) -> Result<Vec<Artist>, CoreError>;

    fn list_songs(&self) -> Result<Vec<Song>, CoreError>;

    fn list_releases(&self) -> Result<Vec<Release>, CoreError>;
}

/// The artist that a row stands for.
pub fn stored_artist(row: &StoredRow) -> (artist: Artist)
    ensures
        is_stored_artist(*row, artist),
{
    Artist {
        id: ArtistId::from_uuid(row.id),
        name: row.primary.clone(),
        variations: Vec::new(),
        bio: copy_opt(&row.secondary),
        sites: Vec::new(),
    }
}

/// The song that a row stands for.
pub fn stored_song(row: &StoredRow) -> (song: Song)
    ensures
        is_stored_song(*row, song),
{
    Song {
        id: SongId::from_uuid(row.id),
        title: row.primary.clone(),
        acoustid: copy_opt(&row.secondary),
    }
}

/// The release that a row stands for.
pub fn stored_release(row: &StoredRow) -> (release: Release)
    ensures
        is_stored_release(*row, release),
{
    Release {
        id: ReleaseId::from_uuid(row.id),
        title: row.primary.clone(),
        release_type: Vec::new(),
        main_artist_ids: Vec::new(),
        release_tracks: Vec::new(),
        release_date: copy_opt(&row.secondary),
        artworks: Vec::new(),
        genres: Vec::new(),
        styles: Vec::new(),
    }
}

/// A store that keeps the catalog in memory.
#[derive(Debug)]
pub struct MemoryStore {
    artists: Vec<StoredRow>,
    songs: Vec<StoredRow>,
    releases: Vec<StoredRow>,
    tracks: Vec<TrackRow>,
}

impl MemoryStore {
    /// What the store holds.
    pub closed spec fn catalog(&self) -> Catalog {
        Catalog {
            artists: self.artists@,
            songs: self.songs@,
            releases: self.releases@,
            tracks: self.tracks@,
        }
    }

    /// An empty store.
    pub fn new() -> (store: Self)
        ensures
            store.catalog().artists.len() == 0,
            store.catalog().songs.len() == 0,
            store.catalog().releases.len() == 0,
            store.catalog().tracks.len() == 0,
    {
        MemoryStore {
            artists: Vec::new(),
            songs: Vec::new(),
            releases: Vec::new(),
            tracks: Vec::new(),
        }
    }
}

impl Library for MemoryStore {
    fn save_artist(&mut self, artist: &Artist) -> (r: Result<(), CoreError>)
        ensures
            r is Ok,
            final(self).catalog() == old(self).catalog().with_artist(*artist),
    {
        let row = StoredRow {
            id: artist.id.as_uuid(),
            primary: artist.name.clone(),
            secondary: copy_opt(&artist.bio),
        };
        upsert(&mut self.artists, row);
        Ok(())
    }

    fn save_song(&mut self, song: &Song) -> (r: Result<(), CoreError>)
        ensures
            r is Ok,
            final(self).catalog() == old(self).catalog().with_song(*song),
    {
        let row = StoredRow {
            id: song.id.as_uuid(),
            primary: song.title.clone(),
            secondary: copy_opt(&song.acoustid),
        };
        upsert(&mut self.songs, row);
        Ok(())
    }

    fn save_release(&mut self, release: &Release) -> (r: Result<(), CoreError>)
        ensures
            r is Ok,
            final(self).catalog() == old(self).catalog().with_release(*release),
    {
        let row = StoredRow {
            id: release.id.as_uuid(),
            primary: release.title.clone(),
            secondary: copy_opt(&release.release_date),
        };
        upsert(&mut self.releases, row);
        Ok(())
    }

    /// Saves a track of a song and a release that the store holds. A track
    /// of a song or a release that it does not hold is refused, and the
    /// store stays as it is.
    fn save_track(&mut self, track: &ReleaseTrack) -> (r: Result<(), CoreError>)
        ensures
            r is Ok <==> old(self).catalog().admits(*track),
            r is Ok ==> final(self).catalog() == old(self).catalog().with_track(*track),
            r is Err ==> final(self).catalog() == old(self).catalog(),
            r matches Err(e) ==> (e matches CoreError::Repository(m) && m@
                == unknown_parent_message()),
    {
        let song = find(&self.songs, track.song_id.as_uuid());
        let release = find(&self.releases, track.release_id.as_uuid());
        if song.is_none() || release.is_none() {
            return Err(unknown_parent());
        }
        upsert_track(&mut self.tracks, track_row(track));
        Ok(())
    }

    fn find_track(&self, id: ReleaseTrackId) -> (r: Result<Option<ReleaseTrack>, CoreError>)
        ensures
            r matches Ok(found) && match track_of(self.catalog().tracks, id@) {
                Some(row) => found matches Some(track) && is_stored_track(row, track),
                None => found is None,
            },
    {
        match find_track_row(&self.tracks, id.as_uuid()) {
            Some(row) => Ok(Some(stored_track(row))),
            None => Ok(None),
        }
    }

    fn find_artist(&self, id: ArtistId) -> (r: Result<Option<Artist>, CoreError>)
        ensures
            r matches Ok(found) && match row_of(self.catalog().artists, id@) {
                Some(row) => found matches Some(artist) && is_stored_artist(row, artist),
                None => found is None,
            },
    {
        match find(&self.artists, id.as_uuid()) {
            Some(row) => Ok(Some(stored_artist(row))),
            None => Ok(None),
        }
    }

    fn find_song(&self, id: SongId) -> (r: Result<Option<Song>, CoreError>)
        ensures
            r matches Ok(found) && match row_of(self.catalog().songs, id@) {
                Some(row) => found matches Some(song) && is_stored_song(row, song),
                None => found is None,
            },
    {
        match find(&self.songs, id.as_uuid()) {
            Some(row) => Ok(Some(stored_song(row))),
            None => Ok(None),
        }
    }

    fn find_release(&self, id: ReleaseId) -> (r: Result<Option<Release>, CoreError>)
        ensures
            r matches Ok(found) && match row_of(self.catalog().releases, id@) {
                Some(row) => found matches Some(release) && is_stored_release(row, release),
                None => found is None,
            },
    {
        match find(&self.releases, id.as_uuid()) {
            Some(row) => Ok(Some(stored_release(row))),
            None => Ok(None),
        }
    }

    fn list_artists(&self) -> (r: Result<Vec<Artist>, CoreError>)
        ensures
            r matches Ok(list) && list@.len() == self.catalog().artists.len() && forall|i: int|
                0 <= i < list@.len() ==> is_stored_artist(
                    self.catalog().artists[i],
                    #[trigger] list@[i],
                ),
    {
        let mut list: Vec<Artist> = Vec::new();
        let mut i: usize = 0;
        while i < self.artists.len()
            invariant
                i <= self.artists.len(),
                list@.len() == i,
                forall|j: int| 0 <= j < i ==> is_stored_artist(self.artists@[j], #[trigger] list@[j]),
            decreases self.artists.len() - i,
        {
            list.push(stored_artist(&self.artists[i]));
            i += 1;
        }
        Ok(list)
    }

    fn list_songs(&self) -> (r: Result<Vec<Song>, CoreError>)
        ensures
            r matches Ok(list) && list@.len() == self.catalog().songs.len() && forall|i: int|
                0 <= i < list@.len() ==> is_stored_song(self.catalog().songs[i], #[trigger] list@[i]),
    {
        let mut list: Vec<Song> = Vec::new();
        let mut i: usize = 0;
        while i < self.songs.len()
            invariant
                i <= self.songs.len(),
                list@.len() == i,
                forall|j: int| 0 <= j < i ==> is_stored_song(self.songs@[j], #[trigger] list@[j]),
            decreases self.songs.len() - i,
        {
            list.push(stored_song(&self.songs[i]));
            i += 1;
        }
        Ok(list)
    }

    fn list_releases(&self) -> (r: Result<Vec<Release>, CoreError>)
        ensures
            r matches Ok(list) && list@.len() == self.catalog().releases.len() && forall|i: int|
                0 <= i < list@.len() ==> is_stored_release(
                    self.catalog().releases[i],
                    #[trigger] list@[i],
                ),
    {
        let mut list: Vec<Release> = Vec::new();
        let mut i: usize = 0;
        while i < self.releases.len()
            invariant
                i <= self.releases.len(),
                list@.len() == i,
                forall|j: int|
                    0 <= j < i ==> is_stored_release(self.releases@[j], #[trigger] list@[j]),
            decreases self.releases.len() - i,
        {
            list.push(stored_release(&self.releases[i]));
            i += 1;
        }
        Ok(list)
    }
}

} // verus!
