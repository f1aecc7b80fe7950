use gamus::catalog::{find, upsert, Library, MemoryStore, StoredRow};
use gamus::domain::{
    ArtistRole, AudioAnalysis, AudioDetails, FileDetails, Release, ReleaseTrack,
    ReleaseTrackArtistCredit, Artist, Song,
};
use gamus::errors::CoreError;
use gamus::ids::{ArtistId, ReleaseId, ReleaseTrackId, SongId};
use gamus::tracks::{find_track_row, stored_track, track_row, upsert_track};
use gamus::release_type::ReleaseType;
use gamus::storage::{
    artist_to_new_row, journal_pragma, release_to_new_row, row_to_artist, row_to_release,
    row_to_song, song_to_new_row, store_error, try_row_to_artist, try_row_to_release,
    try_row_to_song, ArtistRow, ReleaseRow, SongRow, StoreStep,
};

fn song(id: u128, title: &str) -> Song {
    Song { id: SongId::from_uuid(id), title: title.to_string(), acoustid: None }
}

fn artist(id: u128, name: &str) -> Artist {
    Artist {
        id: ArtistId::from_uuid(id),
        name: name.to_string(),
        variations: vec!["v".to_string()],
        bio: Some("bio".to_string()),
        sites: vec!["https://example.org".to_string()],
    }
}

fn release(id: u128, title: &str) -> Release {
    Release {
        id: ReleaseId::from_uuid(id),
        title: title.to_string(),
        release_type: vec![ReleaseType::Album],
        main_artist_ids: vec![],
        release_tracks: vec![],
        release_date: Some("1959".to_string()),
        artworks: vec![],
        genres: vec![],
        styles: vec![],
    }
}

fn track(id: u128, song: u128, release: u128, number: u32) -> ReleaseTrack {
    ReleaseTrack {
        id: ReleaseTrackId::from_uuid(id),
        song_id: SongId::from_uuid(song),
        release_id: ReleaseId::from_uuid(release),
        track_number: number,
        disc_number: 2,
        title_override: Some("Live".to_string()),
        artist_credits: vec![ReleaseTrackArtistCredit {
            release_track_id: ReleaseTrackId::from_uuid(id),
            artist_id: ArtistId::from_uuid(77),
            role: ArtistRole::Performer,
            position: Some(1),
        }],
        audio_details: AudioDetails {
            duration: 2_500_999_999,
            bitrate_kbps: Some(900),
            sample_rate_hz: Some(44_100),
            channels: Some(2),
            analysis: Some(AudioAnalysis { quality: None, features: None, bpm: None }),
            fingerprint: Some("fp".to_string()),
        },
        file_details: FileDetails { path: "/m/a/01.flac".to_string(), size: 1234, modified: 99 },
    }
}

#[test]
fn a_saved_track_is_found_with_what_the_store_keeps() {
    let mut store = MemoryStore::new();
    store.save_song(&song(1, "So What")).unwrap();
    store.save_release(&release(2, "Kind of Blue")).unwrap();
    assert_eq!(store.find_track(ReleaseTrackId::from_uuid(3)).unwrap(), None);
    store.save_track(&track(3, 1, 2, 5)).unwrap();
    let found = store.find_track(ReleaseTrackId::from_uuid(3)).unwrap().unwrap();
    assert_eq!(found.id, ReleaseTrackId::from_uuid(3));
    assert_eq!(found.song_id, SongId::from_uuid(1));
    assert_eq!(found.release_id, ReleaseId::from_uuid(2));
    assert_eq!((found.track_number, found.disc_number), (5, 2));
    assert_eq!(found.title_override.as_deref(), Some("Live"));
    assert_eq!(found.file_details, track(3, 1, 2, 5).file_details);
    // The duration is kept in whole milliseconds.
    assert_eq!(found.audio_details.duration, 2_500_000_000);
    assert_eq!(found.audio_details.bitrate_kbps, Some(900));
    assert_eq!(found.audio_details.sample_rate_hz, Some(44_100));
    assert_eq!(found.audio_details.channels, Some(2));
    assert_eq!(found.audio_details.fingerprint.as_deref(), Some("fp"));
    assert_eq!(found.audio_details.analysis, None);
    assert!(found.artist_credits.is_empty());
    assert_eq!(store.find_track(ReleaseTrackId::from_uuid(4)).unwrap(), None);
}

#[test]
fn saving_a_track_twice_changes_nothing() {
    let mut store = MemoryStore::new();
    store.save_song(&song(1, "So What")).unwrap();
    store.save_release(&release(2, "Kind of Blue")).unwrap();
    store.save_track(&track(3, 1, 2, 5)).unwrap();
    let once = store.find_track(ReleaseTrackId::from_uuid(3)).unwrap();
    store.save_track(&track(3, 1, 2, 5)).unwrap();
    assert_eq!(store.find_track(ReleaseTrackId::from_uuid(3)).unwrap(), once);
    // A known identifier has its row overwritten.
    store.save_track(&track(3, 1, 2, 6)).unwrap();
    let again = store.find_track(ReleaseTrackId::from_uuid(3)).unwrap().unwrap();
    assert_eq!(again.track_number, 6);
}

#[test]
fn a_track_is_saved_after_its_song_and_release() {
    let mut store = MemoryStore::new();
    let refused = "track refers to a song or release that is not stored";
    assert!(matches!(store.save_track(&track(3, 1, 2, 5)), Err(CoreError::Repository(m)) if m == refused));
    store.save_song(&song(1, "So What")).unwrap();
    assert!(matches!(store.save_track(&track(3, 1, 2, 5)), Err(CoreError::Repository(m)) if m == refused));
    assert_eq!(store.find_track(ReleaseTrackId::from_uuid(3)).unwrap(), None);
    store.save_release(&release(2, "Kind of Blue")).unwrap();
    assert!(store.save_track(&track(3, 1, 2, 5)).is_ok());
    assert!(store.find_track(ReleaseTrackId::from_uuid(3)).unwrap().is_some());
}

#[test]
fn track_rows_are_upserted_by_identifier() {
    let mut rows = Vec::new();
    upsert_track(&mut rows, track_row(&track(3, 1, 2, 5)));
    upsert_track(&mut rows, track_row(&track(4, 1, 2, 6)));
    upsert_track(&mut rows, track_row(&track(3, 1, 2, 7)));
    assert_eq!(rows.len(), 2);
    assert_eq!(rows[0].track_number, 7);
    assert_eq!(rows[1].track_number, 6);
    assert_eq!(find_track_row(&rows, 4).map(|r| r.track_number), Some(6));
    assert_eq!(find_track_row(&rows, 9), None);
    let row = track_row(&track(3, 1, 2, 5));
    assert_eq!(row.duration_ms, 2_500);
    assert_eq!(row.path, "/m/a/01.flac");
    let mut long = track(3, 1, 2, 5);
    long.audio_details.duration = u128::MAX;
    assert_eq!(track_row(&long).duration_ms, u64::MAX);
    assert_eq!(stored_track(&track_row(&long)).audio_details.duration, u64::MAX as u128 * 1_000_000);
}

#[test]
fn what_was_saved_is_found() {
    let mut store = MemoryStore::new();
    assert_eq!(store.find_song(SongId::from_uuid(1)).unwrap(), None);
    store.save_song(&song(1, "One")).unwrap();
    store.save_release(&release(2, "Two")).unwrap();
    store.save_artist(&artist(3, "Three")).unwrap();
    assert_eq!(store.find_song(SongId::from_uuid(1)).unwrap(), Some(song(1, "One")));
    assert_eq!(store.find_song(SongId::from_uuid(2)).unwrap(), None);
    let r = store.find_release(ReleaseId::from_uuid(2)).unwrap().unwrap();
    assert_eq!((r.title.as_str(), r.release_date.as_deref()), ("Two", Some("1959")));
    assert!(r.release_type.is_empty());
    let a = store.find_artist(ArtistId::from_uuid(3)).unwrap().unwrap();
    assert_eq!((a.name.as_str(), a.bio.as_deref()), ("Three", Some("bio")));
    assert!(a.variations.is_empty() && a.sites.is_empty());
}

#[test]
fn saving_twice_changes_nothing() {
    let mut store = MemoryStore::new();
    store.save_song(&song(1, "One")).unwrap();
    store.save_song(&song(2, "Two")).unwrap();
    let once = store.list_songs().unwrap();
    store.save_song(&song(1, "One")).unwrap();
    store.save_song(&song(2, "Two")).unwrap();
    assert_eq!(store.list_songs().unwrap(), once);
    assert_eq!(once.len(), 2);
}

#[test]
fn saving_a_known_identifier_overwrites_in_place() {
    let mut store = MemoryStore::new();
    store.save_song(&song(1, "One")).unwrap();
    store.save_song(&song(2, "Two")).unwrap();
    let mut changed = song(1, "Uno");
    changed.acoustid = Some("abc".to_string());
    store.save_song(&changed).unwrap();
    assert_eq!(store.list_songs().unwrap(), vec![changed.clone(), song(2, "Two")]);
    assert_eq!(store.find_song(SongId::from_uuid(1)).unwrap(), Some(changed));
    assert_eq!(store.list_artists().unwrap(), vec![]);
    assert_eq!(store.list_releases().unwrap(), vec![]);
}

#[test]
fn rows_are_upserted_by_identifier() {
    let row = |id: u128, p: &str| StoredRow { id, primary: p.to_string(), secondary: None };
    let mut rows = Vec::new();
    upsert(&mut rows, row(1, "a"));
    upsert(&mut rows, row(2, "b"));
    upsert(&mut rows, row(1, "c"));
    assert_eq!(rows, vec![row(1, "c"), row(2, "b")]);
    assert_eq!(find(&rows, 2), Some(&row(2, "b")));
    assert_eq!(find(&rows, 3), None);
}

#[test]
fn entities_become_rows_with_the_identifier_as_text() {
    let a = artist(0xa1a2a3a4_b1b2_c1c2_d1d2_d3d4d5d6d7d8, "Name");
    let row = artist_to_new_row(&a);
    assert_eq!(row.id, "a1a2a3a4-b1b2-c1c2-d1d2-d3d4d5d6d7d8");
    assert_eq!((row.name.as_str(), row.bio.as_deref()), ("Name", Some("bio")));
    let row = song_to_new_row(&song(1, "T"));
    assert_eq!(row.id, "00000000-0000-0000-0000-000000000001");
    assert_eq!((row.title.as_str(), row.acoustid), ("T", None));
    let row = release_to_new_row(&release(2, "R"));
    assert_eq!(row.id, "00000000-0000-0000-0000-000000000002");
    assert_eq!((row.title.as_str(), row.release_date.as_deref()), ("R", Some("1959")));
}

#[test]
fn rows_become_entities_with_the_main_columns() {
    let row = || ArtistRow {
        id: "a1a2a3a4-b1b2-c1c2-d1d2-d3d4d5d6d7d8".to_string(),
        name: "Name".to_string(),
        bio: None,
        created_at: "2024-01-01T00:00:00Z".to_string(),
        updated_at: "2024-01-02T00:00:00Z".to_string(),
    };
    let a = row_to_artist(row());
    assert_eq!(a.id, ArtistId::from_uuid(0xa1a2a3a4_b1b2_c1c2_d1d2_d3d4d5d6d7d8));
    assert_eq!(a.name, "Name");
    assert!(a.variations.is_empty() && a.sites.is_empty() && a.bio.is_none());
    assert_eq!(try_row_to_artist(row()), Some(a));
    let mut bad = row();
    bad.id = "nope".to_string();
    assert_eq!(try_row_to_artist(bad), None);

    let row = || SongRow {
        id: "00000000-0000-0000-0000-000000000001".to_string(),
        title: "T".to_string(),
        acoustid: Some("x".to_string()),
        created_at: String::new(),
        updated_at: String::new(),
    };
    let mut expected = song(1, "T");
    expected.acoustid = Some("x".to_string());
    assert_eq!(row_to_song(row()), expected);
    assert_eq!(try_row_to_song(row()), Some(expected));

    let row = || ReleaseRow {
        id: "00000000-0000-0000-0000-000000000002".to_string(),
        title: "R".to_string(),
        release_date: None,
        created_at: String::new(),
        updated_at: String::new(),
    };
    let r = row_to_release(row());
    assert_eq!(r.id, ReleaseId::from_uuid(2));
    assert!(r.release_type.is_empty() && r.genres.is_empty() && r.styles.is_empty());
    assert_eq!(try_row_to_release(row()), Some(r));
}

#[test]
fn a_saved_row_is_read_back_as_the_entity() {
    let s = song(0x0123456789abcdef0123456789abcdef, "T");
    let new_row = song_to_new_row(&s);
    let row = SongRow {
        id: new_row.id,
        title: new_row.title,
        acoustid: new_row.acoustid,
        created_at: String::new(),
        updated_at: String::new(),
    };
    assert_eq!(try_row_to_song(row), Some(s));
}

#[test]
fn store_failures_are_repository_errors() {
    let m = |step, detail| match store_error(step, detail) {
        CoreError::Repository(m) => m,
        _ => panic!("not a repository error"),
    };
    assert_eq!(m(StoreStep::Path, "ignored"), "Invalid db path");
    assert_eq!(m(StoreStep::Pool, "x"), "Pool error: x");
    assert_eq!(m(StoreStep::Setup, "x"), "x");
    assert_eq!(m(StoreStep::Journal, "x"), "wal error: x");
    assert_eq!(m(StoreStep::Migration, "x"), "migration error: x");
    assert_eq!(m(StoreStep::Connection, "x"), "connection error: x");
    assert_eq!(m(StoreStep::Statement, "x"), "x");
    assert_eq!(store_error(StoreStep::Pool, "x").to_string(), "repository error: Pool error: x");
    assert_eq!(journal_pragma("WAL"), "PRAGMA journal_mode = WAL");
}
