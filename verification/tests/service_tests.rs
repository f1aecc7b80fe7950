use gamus::errors::{CoreError, MetadataError, RepoError, ScanError};
use gamus::scan::{ScanDevice, ScanGroup, ScannedFile};
use gamus::system::{apply_linux_patches, is_dangerous_combo, EnvPatch};
use gamus::service::{
    after_stage, checked_total_files, decide_concurrency, scan_failed, total_files, FileNext,
    FileStage, ImportSession, ProgressEvent, CONCURRENCY_FAST, CONCURRENCY_MEDIUM,
    CONCURRENCY_SLOW, CONCURRENCY_UNKNOWN,
};

fn group(id: &str, bandwidth: Option<u64>, n: usize) -> ScanGroup {
    ScanGroup {
        device: ScanDevice { id: id.to_string(), bandwidth_mb_s: bandwidth },
        files: (0..n)
            .map(|i| ScannedFile {
                path: format!("/{}/{}.mp3", id, i),
                size_bytes: 1,
                modified_unix: 1,
            })
            .collect(),
    }
}

#[test]
fn concurrency_follows_bandwidth_tiers() {
    assert_eq!(decide_concurrency(Some(501)), 50);
    assert_eq!(decide_concurrency(Some(u64::MAX)), 50);
    assert_eq!(decide_concurrency(Some(500)), 20);
    assert_eq!(decide_concurrency(Some(450)), 20);
    assert_eq!(decide_concurrency(Some(101)), 20);
    assert_eq!(decide_concurrency(Some(100)), 4);
    assert_eq!(decide_concurrency(Some(0)), 4);
    assert_eq!(decide_concurrency(None), 8);
    assert_eq!(
        (CONCURRENCY_FAST, CONCURRENCY_MEDIUM, CONCURRENCY_SLOW, CONCURRENCY_UNKNOWN),
        (50, 20, 4, 8)
    );
}

#[test]
fn total_is_the_sum_over_groups() {
    assert_eq!(total_files(&vec![]), 0);
    let groups = vec![group("a", None, 3), group("b", Some(1), 0), group("c", None, 4)];
    assert_eq!(total_files(&groups), 7);
    assert_eq!(checked_total_files(&groups), Some(7));
}

#[test]
fn one_file_is_probed_then_saved_in_order() {
    assert_eq!(
        after_stage(FileStage::Probing, Ok(()), true, true),
        FileNext::Continue(FileStage::SavingSong)
    );
    assert_eq!(
        after_stage(FileStage::SavingSong, Ok(()), true, true),
        FileNext::Continue(FileStage::SavingRelease)
    );
    assert_eq!(
        after_stage(FileStage::SavingRelease, Ok(()), true, true),
        FileNext::Continue(FileStage::SavingTrack)
    );
    assert_eq!(after_stage(FileStage::SavingTrack, Ok(()), true, true), FileNext::Succeeded);
    assert_eq!(
        after_stage(FileStage::SavingSong, Ok(()), false, true),
        FileNext::Continue(FileStage::SavingTrack)
    );
    assert_eq!(after_stage(FileStage::SavingSong, Ok(()), false, false), FileNext::Succeeded);
    assert_eq!(after_stage(FileStage::SavingRelease, Ok(()), true, false), FileNext::Succeeded);
}

#[test]
fn an_error_ends_the_file_with_its_message() {
    let e = MetadataError::Io("filesystem error: gone".to_string());
    assert_eq!(
        after_stage(FileStage::Probing, Err(e.to_string()), false, false),
        FileNext::Failed("Metadata error: io error: filesystem error: gone".to_string())
    );
    let e = CoreError::Repository("locked".to_string());
    assert_eq!(
        after_stage(FileStage::SavingSong, Err(e.to_string()), true, true),
        FileNext::Failed("Repo song error: repository error: locked".to_string())
    );
    assert_eq!(
        after_stage(FileStage::SavingRelease, Err(e.to_string()), true, true),
        FileNext::Failed("Repo release error: repository error: locked".to_string())
    );
    assert_eq!(
        after_stage(FileStage::SavingTrack, Err("x".to_string()), true, true),
        FileNext::Failed("Repo track error: x".to_string())
    );
}

#[test]
fn every_file_is_reported_once_between_start_and_finish() {
    let groups = vec![group("a", Some(450), 2), group("b", None, 1)];
    let total = total_files(&groups);
    let scanned = Ok(groups);
    let mut events = Vec::new();
    let (mut session, start) = ImportSession::begin(&scanned).unwrap();
    assert_eq!(session.total_files(), total);
    events.push(start);
    for g in scanned.as_ref().unwrap() {
        for f in &g.files {
            assert!(session.remaining() > 0);
            let outcome = if f.path.ends_with("1.mp3") {
                Err((f.path.clone(), "Metadata error: io error: gone".to_string()))
            } else {
                Ok(f.path.clone())
            };
            events.push(session.report(outcome).unwrap());
        }
    }
    assert_eq!(session.remaining(), 0);
    assert!(!session.is_finished());
    events.push(session.finish());
    assert!(session.is_finished());
    assert_eq!(
        events,
        vec![
            ProgressEvent::Start(3),
            ProgressEvent::Success("/a/0.mp3".to_string()),
            ProgressEvent::Error(
                "/a/1.mp3".to_string(),
                "Metadata error: io error: gone".to_string()
            ),
            ProgressEvent::Success("/b/0.mp3".to_string()),
            ProgressEvent::Finish,
        ]
    );
    let reported = events
        .iter()
        .filter(|e| matches!(e, ProgressEvent::Success(_) | ProgressEvent::Error(_, _)))
        .count();
    assert_eq!(reported, total);
}

#[test]
fn files_are_reported_in_any_order_but_once() {
    let scanned = Ok(vec![group("a", Some(450), 3)]);
    let (mut session, start) = ImportSession::begin(&scanned).unwrap();
    assert_eq!(start, ProgressEvent::Start(3));
    assert_eq!(
        session.report(Ok("/a/2.mp3".to_string())),
        Some(ProgressEvent::Success("/a/2.mp3".to_string()))
    );
    assert_eq!(session.remaining(), 2);
    // A second report of the same file is refused, as a success or as an error.
    assert_eq!(session.report(Ok("/a/2.mp3".to_string())), None);
    assert_eq!(session.report(Err(("/a/2.mp3".to_string(), "late".to_string()))), None);
    assert_eq!(session.remaining(), 2);
    assert_eq!(
        session.report(Err(("/a/0.mp3".to_string(), "Metadata error: x".to_string()))),
        Some(ProgressEvent::Error("/a/0.mp3".to_string(), "Metadata error: x".to_string()))
    );
    assert_eq!(
        session.report(Ok("/a/1.mp3".to_string())),
        Some(ProgressEvent::Success("/a/1.mp3".to_string()))
    );
    assert_eq!(session.remaining(), 0);
    assert_eq!(session.finish(), ProgressEvent::Finish);
    // After the finish nothing is reported.
    assert_eq!(session.report(Ok("/a/1.mp3".to_string())), None);
}

#[test]
fn a_path_that_was_not_scanned_is_not_reported() {
    let scanned = Ok(vec![group("a", None, 1)]);
    let (mut session, _) = ImportSession::begin(&scanned).unwrap();
    assert_eq!(session.report(Ok("/a/1.mp3".to_string())), None);
    assert_eq!(session.report(Ok("/A/0.mp3".to_string())), None);
    assert_eq!(session.report(Ok(String::new())), None);
    assert_eq!(session.remaining(), 1);
    assert_eq!(
        session.report(Ok("/a/0.mp3".to_string())),
        Some(ProgressEvent::Success("/a/0.mp3".to_string()))
    );
}

#[test]
fn an_empty_scan_starts_and_finishes() {
    let scanned = Ok(Vec::new());
    let (mut session, start) = ImportSession::begin(&scanned).unwrap();
    assert_eq!(start, ProgressEvent::Start(0));
    assert_eq!(session.remaining(), 0);
    assert_eq!(session.finish(), ProgressEvent::Finish);
}

#[test]
fn a_failed_scan_fails_the_ingestion() {
    let e = scan_failed(&ScanError::Internal("Scanner mutex poisoned".to_string()));
    assert!(matches!(&e, CoreError::Scan(m) if m == "internal error: Scanner mutex poisoned"));
    assert_eq!(e.to_string(), "scan error: internal error: Scanner mutex poisoned");
}

#[test]
fn a_failed_scan_reports_nothing() {
    let scanned = Err(ScanError::Io("/music: permission denied".to_string()));
    match ImportSession::begin(&scanned) {
        Err(CoreError::Scan(m)) => assert_eq!(m, "io error: /music: permission denied"),
        _ => panic!("a failed scan starts no session"),
    }
}

#[test]
fn error_messages() {
    assert_eq!(CoreError::NotFound.to_string(), "not found");
    assert_eq!(CoreError::Metadata("m".to_string()).to_string(), "metadata error: m");
    assert_eq!(RepoError::NotFound.to_string(), "entity not found");
    assert_eq!(RepoError::Storage("s".to_string()).to_string(), "storage error: s");
    assert_eq!(MetadataError::Corrupt("c".to_string()).to_string(), "corrupt metadata: c");
    assert_eq!(MetadataError::Missing("t".to_string()).to_string(), "missing mandatory tag: t");
    assert_eq!(MetadataError::Internal("i".to_string()).to_string(), "internal error: i");
    assert_eq!(ScanError::Io("i".to_string()).to_string(), "io error: i");
}

#[test]
fn events_are_sent_under_their_names() {
    assert_eq!(ProgressEvent::Start(3).name(), "library:import:start");
    assert_eq!(ProgressEvent::Success("p".to_string()).name(), "library:import:success");
    assert_eq!(
        ProgressEvent::Error("p".to_string(), "e".to_string()).name(),
        "library:import:error"
    );
    assert_eq!(ProgressEvent::Finish.name(), "library:import:finish");
}

#[test]
fn renderer_is_adjusted_on_wayland_with_nvidia() {
    assert!(is_dangerous_combo(Some("wayland"), true));
    assert!(is_dangerous_combo(Some("Wayland"), true));
    assert!(is_dangerous_combo(Some("x-WAYLAND-y"), true));
    assert!(!is_dangerous_combo(Some("wayland"), false));
    assert!(!is_dangerous_combo(Some("x11"), true));
    assert!(!is_dangerous_combo(Some(""), true));
    assert!(!is_dangerous_combo(None, true));
    assert_eq!(
        apply_linux_patches(Some("wayland"), true),
        Some(EnvPatch {
            name: "WEBKIT_DISABLE_DMABUF_RENDERER".to_string(),
            value: "1".to_string()
        })
    );
    assert_eq!(apply_linux_patches(Some("x11"), true), None);
}

#[test]
fn a_file_that_cannot_be_probed_is_never_saved() {
    // A file without audio gives no window, so its analysis is invalid; a
    // file that cannot be opened fails the probe. A failed probe ends the
    // file before the first save.
    let counter = gamus::windowing::WindowCounter::begin(8192, 44_100, 15_000).unwrap();
    assert!(matches!(counter.finish(), Err(gamus::errors::AnalysisError::InvalidAudioFormat)));
    let e = MetadataError::Corrupt("Invalid audio format or empty stream".to_string());
    let next = after_stage(FileStage::Probing, Err(e.to_string()), true, true);
    assert_eq!(
        next,
        FileNext::Failed(
            "Metadata error: corrupt metadata: Invalid audio format or empty stream".to_string()
        )
    );
    let scanned = Ok(vec![ScanGroup {
        device: ScanDevice { id: "m".to_string(), bandwidth_mb_s: None },
        files: vec![ScannedFile {
            path: "/m/empty.wav".to_string(),
            size_bytes: 0,
            modified_unix: 1,
        }],
    }]);
    let (mut session, _) = ImportSession::begin(&scanned).unwrap();
    let event = session.report(Err(("/m/empty.wav".to_string(), "Metadata error: x".to_string())));
    assert_eq!(
        event,
        Some(ProgressEvent::Error("/m/empty.wav".to_string(), "Metadata error: x".to_string()))
    );
    assert_eq!(session.finish(), ProgressEvent::Finish);
}

#[test]
fn analysis_and_scan_error_messages() {
    use_messages();
}

fn use_messages() {
    assert_eq!(
        gamus::errors::AnalysisError::FileOpen("x".to_string()).to_string(),
        "File open error: x"
    );
    assert_eq!(gamus::errors::AnalysisError::FFmpeg("x".to_string()).to_string(), "FFmpeg error: x");
    assert_eq!(
        gamus::errors::AnalysisError::NoCompatibleTrack.to_string(),
        "No compatible audio track found"
    );
    assert_eq!(gamus::errors::FsError::Io("x".to_string()).to_string(), "io error: x");
    assert_eq!(gamus::errors::FsError::Walker("x".to_string()).to_string(), "walker error: x");
    assert_eq!(
        gamus::errors::FsError::Config(gamus::errors::ConfigError::Toml("t".to_string()))
            .to_string(),
        "config error: toml error: t"
    );
    assert_eq!(gamus::errors::ScannerError::Io("x".to_string()).to_string(), "io error: x");
    assert_eq!(MetadataError::Unsupported("u".to_string()).to_string(), "unsupported format: u");
    assert_eq!(CoreError::Repository("r".to_string()).to_string(), "repository error: r");
}
