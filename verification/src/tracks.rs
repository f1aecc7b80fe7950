//! The tracks of the catalog: the columns that are kept of a track and of
//! its file, and what saving and finding a track mean.

use vstd::prelude::*;
use crate::domain::AudioDetails;
use crate::domain::FileDetails;
use crate::domain::ReleaseTrack;
use crate::ids::ReleaseId;
use crate::ids::ReleaseTrackId;
use crate::ids::SongId;
use crate::storage::copy_opt;

verus! {

/// Nanoseconds in a millisecond.
pub const NANOS_PER_MILLI: u128 = 1_000_000;

/// The columns kept of one track and of the file that holds it.
#[derive(Debug, PartialEq, Eq)]
pub struct TrackRow {
    pub id: u128,
    pub release_id: u128,
    pub song_id: u128,
    pub disc_number: u32,
    pub track_number: u32,
    pub title_override: Option<String>,
    pub path: String,
    pub size_bytes: u64,
    pub modified_unix: u64,
    /// Whole milliseconds; a longer duration than can be counted is kept
    /// as the largest count.
    pub duration_ms: u64,
    pub bitrate_kbps: Option<u32>,
    pub sample_rate_hz: Option<u32>,
    pub channels: Option<u8>,
    pub fingerprint: Option<String>,
}

/// A duration in whole milliseconds, rounded down, at most `u64::MAX`.
pub open spec fn millis_of(nanos: u128) -> u64 {
    if nanos / NANOS_PER_MILLI > u64::MAX {
        u64::MAX
    } else {
        (nanos / NANOS_PER_MILLI) as u64
    }
}

/// The row that is kept of a track: its identifiers, its place on the
/// release, its file and the measures of its audio.
pub open spec fn track_row_of(track: ReleaseTrack) -> TrackRow {
    TrackRow {
        id: track.id@,
        release_id: track.release_id@,
        song_id: track.song_id@,
        disc_number: track.disc_number,
        track_number: track.track_number,
        title_override: track.title_override,
        path: track.file_details.path,
        size_bytes: track.file_details.size,
        modified_unix: track.file_details.modified,
        duration_ms: millis_of(track.audio_details.duration),
        bitrate_kbps: track.audio_details.bitrate_kbps,
        sample_rate_hz: track.audio_details.sample_rate_hz,
        channels: track.audio_details.channels,
        fingerprint: track.audio_details.fingerprint,
    }
}

/// Whether `track` is the track that a row stands for: the columns of the
/// row, the duration in whole milliseconds, no credits and no analysis.
pub open spec fn is_stored_track(row: TrackRow, track: ReleaseTrack) -> bool {
    &&& track.id@ == row.id
    &&& track.release_id@ == row.release_id
    &&& track.song_id@ == row.song_id
    &&& track.disc_number == row.disc_number
    &&& track.track_number == row.track_number
    &&& track.title_override == row.title_override
    &&& track.artist_credits@.len() == 0
    &&& track.file_details.path == row.path
    &&& track.file_details.size == row.size_bytes
    &&& track.file_details.modified == row.modified_unix
    &&& track.audio_details.duration == row.duration_ms * NANOS_PER_MILLI
    &&& track.audio_details.bitrate_kbps == row.bitrate_kbps
    &&& track.audio_details.sample_rate_hz == row.sample_rate_hz
    &&& track.audio_details.channels == row.channels
    &&& track.audio_details.analysis is None
    &&& track.audio_details.fingerprint == row.fingerprint
}

/// The row that is kept of a track.
pub fn track_row(track: &ReleaseTrack) -> (row: TrackRow)
    ensures
        row == track_row_of(*track),
{
    let whole: u128 = track.audio_details.duration / NANOS_PER_MILLI;
    let duration_ms: u64 = if whole > u64::MAX as u128 {
        u64::MAX
    } else {
        whole as u64
    };
    TrackRow {
        id: track.id.as_uuid(),
        release_id: track.release_id.as_uuid(),
        song_id: track.song_id.as_uuid(),
        disc_number: track.disc_number,
        track_number: track.track_number,
        title_override: copy_opt(&track.title_override),
        path: track.file_details.path.clone(),
        size_bytes: track.file_details.size,
        modified_unix: track.file_details.modified,
        duration_ms,
        bitrate_kbps: track.audio_details.bitrate_kbps,
        sample_rate_hz: track.audio_details.sample_rate_hz,
        channels: track.audio_details.channels,
        fingerprint: copy_opt(&track.audio_details.fingerprint),
    }
}

/// The track that a row stands for.
pub fn stored_track(row: &TrackRow) -> (track: ReleaseTrack)
    ensures
        is_stored_track(*row, track),
{
    assert(row.duration_ms * NANOS_PER_MILLI <= u128::MAX) by (nonlinear_arith)
        requires
            row.duration_ms <= u64::MAX,
            NANOS_PER_MILLI == 1_000_000,
    ;
    ReleaseTrack {
        id: ReleaseTrackId::from_uuid(row.id),
        song_id: SongId::from_uuid(row.song_id),
        release_id: ReleaseId::from_uuid(row.release_id),
        track_number: row.track_number,
        disc_number: row.disc_number,
        title_override: copy_opt(&row.title_override),
        artist_credits: Vec::new(),
        audio_details: AudioDetails {
            duration: row.duration_ms as u128 * NANOS_PER_MILLI,
            bitrate_kbps: row.bitrate_kbps,
            sample_rate_hz: row.sample_rate_hz,
            channels: row.channels,
            analysis: None,
            fingerprint: copy_opt(&row.fingerprint),
        },
        file_details: FileDetails {
            path: row.path.clone(),
            size: row.size_bytes,
            modified: row.modified_unix,
        },
    }
}

/// A track that is found again is the track that was saved, but for what
/// the store does not keep: the part of the duration below a millisecond,
/// the credits and the analysis.
pub proof fn lemma_track_round_trip(track: ReleaseTrack, found: ReleaseTrack)
    requires
        is_stored_track(track_row_of(track), found),
    ensures
        found.id@ == track.id@,
        found.song_id@ == track.song_id@,
        found.release_id@ == track.release_id@,
        found.track_number == track.track_number,
        found.disc_number == track.disc_number,
        found.title_override == track.title_override,
        found.file_details == track.file_details,
        found.audio_details.duration <= track.audio_details.duration,
        track.audio_details.duration / NANOS_PER_MILLI <= u64::MAX
            ==> track.audio_details.duration - found.audio_details.duration < NANOS_PER_MILLI,
{
    let nanos = track.audio_details.duration;
    assert((nanos / NANOS_PER_MILLI) * NANOS_PER_MILLI <= nanos && nanos - (nanos
        / NANOS_PER_MILLI) * NANOS_PER_MILLI < NANOS_PER_MILLI) by (nonlinear_arith)
        requires
            NANOS_PER_MILLI == 1_000_000,
            nanos >= 0,
    ;
    if nanos / NANOS_PER_MILLI > u64::MAX {
        assert(u64::MAX * NANOS_PER_MILLI <= (nanos / NANOS_PER_MILLI) * NANOS_PER_MILLI)
            by (nonlinear_arith)
            requires
                nanos / NANOS_PER_MILLI > u64::MAX,
                NANOS_PER_MILLI == 1_000_000,
        ;
    }
}

/// The index of the first row from `from` on with the given identifier, or
/// the number of rows if there is none.
pub open spec fn track_position(rows: Seq<TrackRow>, id: u128, from: int) -> int
    decreases rows.len() - from,
{
    if from < 0 || from >= rows.len() {
        rows.len() as int
    } else if rows[from].id == id {
        from
    } else {
        track_position(rows, id, from + 1)
    }
}

/// The row of the track with the given identifier, if there is one.
pub open spec fn track_of(rows: Seq<TrackRow>, id: u128) -> Option<TrackRow> {
    let at = track_position(rows, id, 0);
    if at < rows.len() {
        Some(rows[at])
    } else {
        None
    }
}

/// The rows after an upsert: the row replaces the one that has its
/// identifier, or is added at the end.
pub open spec fn with_track_row(rows: Seq<TrackRow>, row: TrackRow) -> Seq<TrackRow> {
    let at = track_position(rows, row.id, 0);
    if at < rows.len() {
        rows.update(at, row)
    } else {
        rows.push(row)
    }
}

/// Where `track_position` points: at a row with the identifier, before
/// which no row has it; or past the end, and then no row has it.
pub proof fn lemma_track_position(rows: Seq<TrackRow>, id: u128, from: int)
    requires
        0 <= from <= rows.len(),
    ensures
        from <= track_position(rows, id, from) <= rows.len(),
        track_position(rows, id, from) < rows.len() ==> rows[track_position(rows, id, from)].id
            == id,
        forall|i: int| from <= i < track_position(rows, id, from) ==> (#[trigger] rows[i]).id != id,
    decreases rows.len() - from,
{
    if from < rows.len() && rows[from].id != id {
        lemma_track_position(rows, id, from + 1);
    }
}

proof fn lemma_track_position_at(rows: Seq<TrackRow>, id: u128, from: int, at: int)
    requires
        0 <= from <= at < rows.len(),
        rows[at].id == id,
        forall|i: int| from <= i < at ==> (#[trigger] rows[i]).id != id,
    ensures
        track_position(rows, id, from) == at,
    decreases at - from,
{
    if from < at {
        lemma_track_position_at(rows, id, from + 1, at);
    }
}

proof fn lemma_track_position_none(rows: Seq<TrackRow>, id: u128, from: int)
    requires
        0 <= from <= rows.len(),
        forall|i: int| from <= i < rows.len() ==> (#[trigger] rows[i]).id != id,
    ensures
        track_position(rows, id, from) == rows.len(),
    decreases rows.len() - from,
{
    if from < rows.len() {
        lemma_track_position_none(rows, id, from + 1);
    }
}

/// A track that was saved is found: after an upsert the row is the row of
/// its identifier.
pub proof fn lemma_track_upsert_finds(rows: Seq<TrackRow>, row: TrackRow)
    ensures
        track_of(with_track_row(rows, row), row.id) == Some(row),
{
    lemma_track_position(rows, row.id, 0);
    let at = track_position(rows, row.id, 0);
    let after = with_track_row(rows, row);
    assert forall|i: int| 0 <= i < at implies (#[trigger] after[i]).id != row.id by {
        assert(after[i] == rows[i]);
    }
    lemma_track_position_at(after, row.id, 0, at);
}

/// An upsert of a track leaves the track of every other identifier as it
/// was.
pub proof fn lemma_track_upsert_keeps_others(rows: Seq<TrackRow>, row: TrackRow, id: u128)
    requires
        id != row.id,
    ensures
        track_of(with_track_row(rows, row), id) == track_of(rows, id),
{
    lemma_track_position(rows, row.id, 0);
    lemma_track_position(rows, id, 0);
    let at = track_position(rows, row.id, 0);
    let p = track_position(rows, id, 0);
    let after = with_track_row(rows, row);
    if p < rows.len() {
        assert(p != at);
        assert forall|i: int| 0 <= i < p implies (#[trigger] after[i]).id != id by {
            if i != at {
                assert(after[i] == rows[i]);
            }
        }
        assert(after[p] == rows[p]);
        lemma_track_position_at(after, id, 0, p);
    } else {
        assert forall|i: int| 0 <= i < after.len() implies (#[trigger] after[i]).id != id by {
            if i != at {
                assert(after[i] == rows[i]);
            }
        }
        lemma_track_position_none(after, id, 0);
    }
}

/// The upsert of a track is idempotent: saving the same row again changes
/// nothing.
pub proof fn lemma_track_upsert_idempotent(rows: Seq<TrackRow>, row: TrackRow)
    ensures
        with_track_row(with_track_row(rows, row), row) == with_track_row(rows, row),
{
    lemma_track_position(rows, row.id, 0);
    let at = track_position(rows, row.id, 0);
    let after = with_track_row(rows, row);
    assert forall|i: int| 0 <= i < at implies (#[trigger] after[i]).id != row.id by {
        assert(after[i] == rows[i]);
    }
    lemma_track_position_at(after, row.id, 0, at);
    assert(after.update(at, row) == after);
}

/// Upserts the row of a track.
pub fn upsert_track(rows: &mut Vec<TrackRow>, row: TrackRow)
    ensures
        final(rows)@ == with_track_row(old(rows)@, row),
{
    let mut i: usize = 0;
    while i < rows.len()
        invariant
            i <= rows.len(),
            rows@ == old(rows)@,
            track_position(rows@, row.id, 0) == track_position(rows@, row.id, i as int),
        decreases rows.len() - i,
    {
        if rows[i].id == row.id {
            rows.set(i, row);
            return ;
        }
        i += 1;
    }
    rows.push(row);
}

/// Finds the row of the track with an identifier.
pub fn find_track_row(rows: &Vec<TrackRow>, id: u128) -> (r: Option<&TrackRow>)
    ensures
        r is Some <==> track_of(rows@, id) is Some,
        r matches Some(row) ==> track_of(rows@, id) == Some(*row),
{
    let mut i: usize = 0;
    while i < rows.len()
        invariant
            i <= rows.len(),
            track_position(rows@, id, 0) == track_position(rows@, id, i as int),
        decreases rows.len() - i,
    {
        if rows[i].id == id {
            return Some(&rows[i]);
        }
        i += 1;
    }
    None
}

} // verus!
