use gamus::adapter::{map_scanner_error, poisoned_error, to_scan_group, DeviceCache, FsScanner};
use gamus::device;
use gamus::device_other;
use gamus::device_windows::{self, DrivePrefix};
use gamus::errors::{ConfigError, ScanError, ScannerError};
use gamus::fs::{self, FsConfig};
use gamus::fs_scanner::{
    device_or_unknown, entry_filter, group_by_device, is_audio, probe_outcome, probe_target,
    scan_groups_async, scan_music_with_cfg, walk_config, wants_stat, FoundEntry, FsDevice,
    FsScanGroup, FsScannedFile, ProbeOutcome, DEFAULT_MAX_DEPTH, SAMPLE_BYTES,
};
use gamus::scan::{ScanDevice, ScanGroup, ScannedFile};
use gamus::scanner_config::ScannerConfig;
use gamus::service::decide_concurrency;
use gamus::walker::{Filtering, WalkConfig};

fn file(path: &str) -> FsScannedFile {
    FsScannedFile { path: path.to_string(), size: 10, modified: 20 }
}

fn entry(path: &str, name: &str, is_file: bool, stat: Option<(u64, u64)>) -> FoundEntry {
    FoundEntry { path: path.to_string(), file_name: Some(name.to_string()), is_file, stat }
}

#[test]
fn audio_files_are_known_by_extension_whatever_the_case() {
    let cfg = ScannerConfig::default();
    assert!(is_audio("a.mp3", &cfg));
    assert!(is_audio("a.MP3", &cfg));
    assert!(is_audio("a.Flac", &cfg));
    assert!(is_audio("a.b.ogg", &cfg));
    assert!(!is_audio("a.wav", &cfg));
    assert!(!is_audio("mp3", &cfg));
    assert!(!is_audio(".mp3", &cfg));
    assert!(!is_audio("a.mp3.", &cfg));
    assert!(!is_audio("", &cfg));
    let upper = ScannerConfig {
        roots: vec![],
        audio_exts: vec!["WAV".to_string()],
        ignore_hidden: true,
        max_depth: None,
    };
    assert!(is_audio("a.wav", &upper));
    assert!(is_audio("a.Wav", &upper));
    let none = ScannerConfig { roots: vec![], audio_exts: vec![], ignore_hidden: true, max_depth: None };
    assert!(!is_audio("a.mp3", &none));
}

#[test]
fn filter_ignores_hidden_and_temporary_entries() {
    assert_eq!(entry_filter(Some(".git"), true), Filtering::IgnoreDir);
    assert_eq!(entry_filter(Some(".git"), false), Filtering::Continue);
    assert_eq!(entry_filter(Some(".x.tmp"), true), Filtering::IgnoreDir);
    assert_eq!(entry_filter(Some(".x.tmp"), false), Filtering::Ignore);
    assert_eq!(entry_filter(Some("part.tmp"), true), Filtering::Ignore);
    assert_eq!(entry_filter(Some("part.TMP"), true), Filtering::Continue);
    assert_eq!(entry_filter(Some("song.mp3"), true), Filtering::Continue);
    assert_eq!(entry_filter(Some("tmp"), true), Filtering::Continue);
    assert_eq!(entry_filter(None, true), Filtering::Continue);
    assert_eq!(fs::entry_filter(Some(".git")), Filtering::IgnoreDir);
    assert_eq!(fs::entry_filter(Some("a.tmp")), Filtering::Ignore);
    assert_eq!(fs::entry_filter(Some("a.mp3")), Filtering::Continue);
}

#[test]
fn walks_do_not_follow_links_and_stop_at_the_depth_limit() {
    let mut cfg = ScannerConfig::default();
    assert_eq!(
        walk_config(&cfg),
        WalkConfig { follow_symlinks: false, max_depth: 50, dedup_dirs: true }
    );
    cfg.max_depth = Some(3);
    assert_eq!(walk_config(&cfg).max_depth, 3);
    assert_eq!(DEFAULT_MAX_DEPTH, 50);
    let fs_cfg = FsConfig { audio_exts: vec![], ignore_hidden: true, max_depth: None };
    assert_eq!(
        fs::walk_config(&fs_cfg),
        WalkConfig { follow_symlinks: false, max_depth: 50, dedup_dirs: true }
    );
    assert_eq!(
        WalkConfig::default(),
        WalkConfig { follow_symlinks: true, max_depth: 100, dedup_dirs: true }
    );
}

#[test]
fn scan_keeps_audio_files_that_could_be_read() {
    let cfg = ScannerConfig::default();
    let entries = vec![
        entry("/m/a.mp3", "a.mp3", true, Some((1, 2))),
        entry("/m/dir.mp3", "dir.mp3", false, Some((1, 2))),
        entry("/m/cover.jpg", "cover.jpg", true, Some((1, 2))),
        entry("/m/gone.flac", "gone.flac", true, None),
        FoundEntry { path: "/m/x.ogg".to_string(), file_name: None, is_file: true, stat: Some((1, 2)) },
        entry("/m/b.OGG", "b.OGG", true, Some((3, 4))),
    ];
    assert_eq!(
        scan_music_with_cfg(&cfg, &entries),
        vec![
            FsScannedFile { path: "/m/a.mp3".to_string(), size: 1, modified: 2 },
            FsScannedFile { path: "/m/b.OGG".to_string(), size: 3, modified: 4 },
        ]
    );
    assert!(scan_music_with_cfg(&cfg, &vec![]).is_empty());
    assert!(wants_stat(Some("a.mp3"), true, &cfg));
    assert!(!wants_stat(Some("a.mp3"), false, &cfg));
    assert!(!wants_stat(Some("a.txt"), true, &cfg));
    assert!(!wants_stat(None, true, &cfg));
}

#[test]
fn plain_scan_keeps_audio_files_that_could_be_read() {
    let cfg = FsConfig { audio_exts: vec!["mp3".to_string()], ignore_hidden: true, max_depth: None };
    assert!(fs::is_audio("x.Mp3", &cfg));
    assert!(!fs::is_audio("x.flac", &cfg));
    let entries = vec![
        entry("/m/a.mp3", "a.mp3", true, Some((1, 2))),
        entry("/m/b.flac", "b.flac", true, Some((1, 2))),
        entry("/m/c.mp3", "c.mp3", true, None),
    ];
    assert_eq!(
        fs::scan_music_files(&cfg, &entries),
        vec![fs::ScannedFile { path: "/m/a.mp3".to_string(), size: 1, modified: 2 }]
    );
}

#[test]
fn only_hidden_files_give_no_group() {
    // With hidden entries ignored the walk yields none of them, so the scan
    // has no entries and there is no group.
    for name in [".a.mp3", ".b.flac", ".dir"] {
        assert_ne!(entry_filter(Some(name), true), Filtering::Continue);
    }
    let files = scan_music_with_cfg(&ScannerConfig::default(), &vec![]);
    let located: Vec<(FsScannedFile, String)> = files.into_iter().map(|f| (f, String::new())).collect();
    let groups = group_by_device(&located);
    assert!(groups.is_empty());
}

#[test]
fn unknown_devices_share_one_group() {
    assert_eq!(device_or_unknown(Ok("2049".to_string())), "2049");
    assert_eq!(device_or_unknown(Err("denied".to_string())), "UNKNOWN_DEVICE");
}

#[test]
fn files_are_grouped_by_device_in_order() {
    let located = vec![
        (file("/a/1"), "A".to_string()),
        (file("/b/1"), "B".to_string()),
        (file("/a/2"), "A".to_string()),
        (file("/c/1"), "C".to_string()),
        (file("/b/2"), "B".to_string()),
    ];
    let groups = group_by_device(&located);
    assert_eq!(
        groups,
        vec![
            FsScanGroup {
                device: FsDevice { id: "A".to_string(), bandwidth_mb_s: None, probed: false },
                files: vec![file("/a/1"), file("/a/2")]
            },
            FsScanGroup {
                device: FsDevice { id: "B".to_string(), bandwidth_mb_s: None, probed: false },
                files: vec![file("/b/1"), file("/b/2")]
            },
            FsScanGroup {
                device: FsDevice { id: "C".to_string(), bandwidth_mb_s: None, probed: false },
                files: vec![file("/c/1")]
            },
        ]
    );
}

#[test]
fn a_known_device_is_not_measured() {
    let mut known = DeviceCache::new();
    known.insert("A".to_string(), Some(450));
    let a = FsScanGroup {
        device: FsDevice { id: "A".to_string(), bandwidth_mb_s: None, probed: false },
        files: vec![file("/a/1")],
    };
    let b = FsScanGroup {
        device: FsDevice { id: "B".to_string(), bandwidth_mb_s: None, probed: false },
        files: vec![file("/b/1"), file("/b/2")],
    };
    let empty = FsScanGroup {
        device: FsDevice { id: "E".to_string(), bandwidth_mb_s: None, probed: false },
        files: vec![],
    };
    assert_eq!(probe_target(&known, &a), None);
    assert_eq!(probe_target(&known, &b).as_deref(), Some("/b/1"));
    assert_eq!(probe_target(&known, &empty), None);
    let groups = scan_groups_async(
        &known,
        vec![
            (a, ProbeOutcome::Returned(Some(9))),
            (b, ProbeOutcome::Returned(Some(120))),
            (empty, ProbeOutcome::NotRun),
        ],
    );
    assert_eq!(groups[0].device.bandwidth_mb_s, Some(450));
    assert_eq!(groups[1].device.bandwidth_mb_s, Some(120));
    assert_eq!(groups[2].device.bandwidth_mb_s, None);
    assert_eq!(
        (groups[0].device.probed, groups[1].device.probed, groups[2].device.probed),
        (true, true, false)
    );
    assert_eq!(groups[1].files, vec![file("/b/1"), file("/b/2")]);
    assert_eq!(groups[1].device.id, "B");
}

#[test]
fn device_cache_remembers_the_last_speed() {
    let mut cache = DeviceCache::new();
    assert_eq!(cache.get("A"), None);
    cache.insert("A".to_string(), Some(1));
    cache.insert("B".to_string(), Some(2));
    cache.insert("A".to_string(), Some(3));
    assert_eq!(cache.get("A"), Some(Some(3)));
    assert_eq!(cache.get("B"), Some(Some(2)));
    let copy = cache.snapshot();
    cache.insert("B".to_string(), None);
    assert_eq!(copy.get("B"), Some(Some(2)));
    assert_eq!(cache.get("B"), Some(None));
}

#[test]
fn two_roots_on_one_device_are_measured_once() {
    let mut scanner = FsScanner::new();
    let located = vec![
        (file("/root1/a.mp3"), "2049".to_string()),
        (file("/root2/b.mp3"), "2049".to_string()),
    ];

    // First scan: one group, its device unknown, so one sample is read.
    let known = scanner.known_speeds();
    let groups = group_by_device(&located);
    assert_eq!(groups.len(), 1);
    let targets: Vec<Option<String>> = groups.iter().map(|g| probe_target(&known, g)).collect();
    assert_eq!(targets, vec![Some("/root1/a.mp3".to_string())]);
    let groups =
        scan_groups_async(
            &known,
            groups.into_iter().map(|g| (g, ProbeOutcome::Returned(Some(450)))).collect(),
        );
    let mapped = scanner.scan_library_files(Ok(groups)).unwrap();
    assert_eq!(mapped.len(), 1);
    assert_eq!(mapped[0].device, ScanDevice { id: "2049".to_string(), bandwidth_mb_s: Some(450) });
    assert_eq!(mapped[0].files.len(), 2);
    assert_eq!(decide_concurrency(mapped[0].device.bandwidth_mb_s), 20);

    // Second scan: the device is remembered and nothing is read.
    let known = scanner.known_speeds();
    assert_eq!(known.get("2049"), Some(Some(450)));
    let groups = group_by_device(&located);
    assert_eq!(probe_target(&known, &groups[0]), None);
    let groups = scan_groups_async(
        &known,
        groups.into_iter().map(|g| (g, ProbeOutcome::NotRun)).collect(),
    );
    assert_eq!(groups[0].device.bandwidth_mb_s, Some(450));
}

#[test]
fn a_measurement_that_told_nothing_is_not_repeated() {
    let mut scanner = FsScanner::new();
    let located = vec![(file("/d/a.mp3"), "D".to_string())];

    // First scan: the read of the sample takes no time and tells nothing.
    let known = scanner.known_speeds();
    let groups = group_by_device(&located);
    assert_eq!(probe_target(&known, &groups[0]).as_deref(), Some("/d/a.mp3"));
    let told = device::measure_device_throughput(SAMPLE_BYTES, 0);
    assert_eq!(told, None);
    let groups = scan_groups_async(
        &known,
        groups.into_iter().map(|g| (g, probe_outcome(Ok(told)))).collect(),
    );
    assert_eq!(groups[0].device.bandwidth_mb_s, None);
    assert!(groups[0].device.probed);
    let mapped = scanner.scan_library_files(Ok(groups)).unwrap();
    assert_eq!(mapped[0].device.bandwidth_mb_s, None);
    assert_eq!(decide_concurrency(mapped[0].device.bandwidth_mb_s), 8);

    // Second scan: the device is remembered, with nothing for a bandwidth.
    let known = scanner.known_speeds();
    assert_eq!(known.get("D"), Some(None));
    let groups = group_by_device(&located);
    assert_eq!(probe_target(&known, &groups[0]), None);
    let groups = scan_groups_async(
        &known,
        groups.into_iter().map(|g| (g, ProbeOutcome::NotRun)).collect(),
    );
    assert_eq!(groups[0].device.bandwidth_mb_s, None);
    assert!(groups[0].device.probed);
}

#[test]
fn a_sample_that_could_not_be_read_is_not_tried_again() {
    let mut scanner = FsScanner::new();
    let located = vec![(file("/d/a.mp3"), "D".to_string())];
    let groups = group_by_device(&located);
    assert_eq!(probe_outcome(Err("denied".to_string())), ProbeOutcome::Failed);
    let groups = scan_groups_async(
        &scanner.known_speeds(),
        groups.into_iter().map(|g| (g, probe_outcome(Err("denied".to_string())))).collect(),
    );
    assert!(groups[0].device.probed);
    assert_eq!(groups[0].device.bandwidth_mb_s, None);
    scanner.scan_library_files(Ok(groups)).unwrap();
    let known = scanner.known_speeds();
    assert_eq!(known.get("D"), Some(None));
    let groups = group_by_device(&located);
    assert_eq!(probe_target(&known, &groups[0]), None);
}

#[test]
fn a_device_that_was_not_measured_is_measured_by_the_next_scan() {
    let mut scanner = FsScanner::new();
    let located = vec![(file("/d/a.mp3"), "D".to_string())];
    let groups = scan_groups_async(
        &scanner.known_speeds(),
        group_by_device(&located).into_iter().map(|g| (g, ProbeOutcome::NotRun)).collect(),
    );
    assert!(!groups[0].device.probed);
    scanner.scan_library_files(Ok(groups)).unwrap();
    let known = scanner.known_speeds();
    assert_eq!(known.get("D"), None);
    let groups = group_by_device(&located);
    assert_eq!(probe_target(&known, &groups[0]).as_deref(), Some("/d/a.mp3"));
}

#[test]
fn a_device_without_a_measurement_is_not_remembered() {
    let mut scanner = FsScanner::default();
    let group = FsScanGroup {
        device: FsDevice { id: "A".to_string(), bandwidth_mb_s: None, probed: false },
        files: vec![file("/a/1")],
    };
    scanner.record_speeds(&vec![group]);
    assert_eq!(scanner.known_speeds().get("A"), None);
}

#[test]
fn scan_groups_become_groups_of_the_service() {
    let g = FsScanGroup {
        device: FsDevice { id: "A".to_string(), bandwidth_mb_s: Some(7), probed: true },
        files: vec![FsScannedFile { path: "/a".to_string(), size: 1, modified: 2 }],
    };
    assert_eq!(
        to_scan_group(g),
        ScanGroup {
            device: ScanDevice { id: "A".to_string(), bandwidth_mb_s: Some(7) },
            files: vec![ScannedFile { path: "/a".to_string(), size_bytes: 1, modified_unix: 2 }],
        }
    );
}

#[test]
fn scanner_errors_are_mapped_for_the_service() {
    assert!(matches!(map_scanner_error(ScannerError::Io("x".to_string())), ScanError::Io(m) if m == "x"));
    assert!(matches!(map_scanner_error(ScannerError::Walker("w".to_string())), ScanError::Internal(m) if m == "w"));
    assert!(matches!(
        map_scanner_error(ScannerError::Config(ConfigError::Other("bad".to_string()))),
        ScanError::Internal(m) if m == "other: bad"
    ));
    assert!(matches!(poisoned_error(), ScanError::Internal(m) if m == "Scanner mutex poisoned"));
    let mut scanner = FsScanner::new();
    let e = scanner.scan_library_files(Err(ScannerError::Io("disk".to_string()))).unwrap_err();
    assert_eq!(e.to_string(), "io error: disk");
    assert_eq!(ScannerError::Walker("join error: x".to_string()).to_string(), "walker error: join error: x");
    assert_eq!(
        ScannerError::Config(ConfigError::Directories).to_string(),
        "config error: directories error: could not determine home directory"
    );
}

#[test]
fn device_identifiers() {
    assert_eq!(device::device_id(2049), Ok("2049".to_string()));
    assert_eq!(device::device_id(0), Ok("0".to_string()));
    assert_eq!(device::device_id(u64::MAX), Ok("18446744073709551615".to_string()));
    assert_eq!(device_windows::device_id(DrivePrefix::Disk(b'C')), Ok("C:".to_string()));
    assert_eq!(device_windows::device_id(DrivePrefix::Disk(b'd')), Ok("d:".to_string()));
    assert_eq!(device_windows::device_id(DrivePrefix::Other), Ok("OTHER_DRIVE".to_string()));
    assert_eq!(device_windows::device_id(DrivePrefix::Missing), Ok("NO_DRIVE".to_string()));
    assert_eq!(device_other::device_id(), Ok("UNKNOWN_DEVICE".to_string()));
}

#[test]
fn throughput_is_mebibytes_per_second() {
    assert_eq!(SAMPLE_BYTES, 20 * 1024 * 1024);
    // 20 MiB in 0.1 s: 200 MiB/s.
    assert_eq!(device::measure_device_throughput(SAMPLE_BYTES, 100_000_000), Some(200));
    // 20 MiB in 44 ms: 454.5 MiB/s, rounded down.
    assert_eq!(device::measure_device_throughput(SAMPLE_BYTES, 44_000_000), Some(454));
    assert_eq!(device::measure_device_throughput(SAMPLE_BYTES, 0), None);
    assert_eq!(device::measure_device_throughput(0, 0), None);
    assert_eq!(device::measure_device_throughput(0, 5), Some(0));
    assert_eq!(device::measure_device_throughput(1_048_575, 1_000_000_000), Some(0));
    assert_eq!(device::measure_device_throughput(1_048_576, 1_000_000_000), Some(1));
    assert_eq!(
        device::measure_device_throughput(u64::MAX, 1_000_000_000),
        Some(17_592_186_044_415)
    );
    assert_eq!(device::measure_device_throughput(u64::MAX, 1), Some(u64::MAX));
}

#[test]
fn the_unknown_device_has_no_bandwidth() {
    let mut known = DeviceCache::new();
    known.insert("UNKNOWN_DEVICE".to_string(), Some(300));
    let group = || FsScanGroup {
        device: FsDevice { id: "UNKNOWN_DEVICE".to_string(), bandwidth_mb_s: None, probed: false },
        files: vec![file("/x/1")],
    };
    assert_eq!(probe_target(&DeviceCache::new(), &group()), None);
    assert_eq!(probe_target(&known, &group()), None);
    let groups =
        scan_groups_async(&known, vec![(group(), ProbeOutcome::Returned(Some(200)))]);
    assert_eq!(groups[0].device.bandwidth_mb_s, None);
    assert!(!groups[0].device.probed);
    assert_eq!(decide_concurrency(groups[0].device.bandwidth_mb_s), 8);
}
