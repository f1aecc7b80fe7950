use gamus::config::{FileRead, GamusPaths, PlatformDirs, TomlConfigBackend};
use gamus::errors::ConfigError;
use gamus::fs::FsConfig;
use gamus::scanner_config::{default_audio_exts, default_ignore_hidden, ScannerConfig, ScannerConfigDto};
use gamus::storage_config::StorageConfig;
use gamus::toml_value::TomlValue;
use std::path::Path;

fn backend() -> TomlConfigBackend {
    TomlConfigBackend::new(GamusPaths::new(Some("/base".to_string()), None).unwrap())
}

fn join(base: &str, leaf: &str) -> String {
    Path::new(base).join(leaf).to_string_lossy().into_owned()
}

#[test]
fn test_gamus_base_dir_override() {
    let tmp = "/tmp/gamus-base";
    let paths = GamusPaths::new(Some(tmp.to_string()), None).unwrap();

    assert_eq!(paths.base_dir, tmp);
    assert_eq!(paths.config_dir, join(tmp, "config"));
    assert_eq!(paths.data_dir, join(tmp, "data"));
    assert_eq!(paths.cache_dir, join(tmp, "cache"));

    // The library chooses the directories and leaves it to its caller to
    // create them, so there is nothing on disk to look for here: what can be
    // told is that each of the three lies under the base.
    assert!(Path::new(&paths.config_dir).starts_with(tmp));
    assert!(Path::new(&paths.data_dir).starts_with(tmp));
    assert!(Path::new(&paths.cache_dir).starts_with(tmp));
}

#[test]
fn a_name_is_joined_to_its_directory_by_one_separator() {
    let sep = std::path::MAIN_SEPARATOR;
    let paths = |b: &str| GamusPaths::new(Some(b.to_string()), None).unwrap();
    assert_eq!(paths("/b").config_dir, format!("/b{}config", sep));
    assert_eq!(paths("/b").config_file(), format!("/b{}config{}gamus.toml", sep, sep));
    assert_eq!(paths("/b/").config_dir, "/b/config");
    assert_eq!(paths("/b/").data_dir, "/b/data");
    assert_eq!(paths("").cache_dir, "cache");
    assert_eq!(paths("rel").cache_dir, format!("rel{}cache", sep));
    let platform = PlatformDirs {
        config_dir: "/b/config".to_string(),
        data_dir: "/b/data/".to_string(),
        cache_dir: String::new(),
    };
    let p = GamusPaths::new(None, Some(platform)).unwrap();
    assert_eq!(p.config_file(), format!("/b/config{}gamus.toml", sep));
    assert_eq!(p.database_file(), "/b/data/gamus.db");
}

#[test]
fn base_override_wins_over_the_platform() {
    let platform = PlatformDirs {
        config_dir: "/p/config".to_string(),
        data_dir: "/p/data".to_string(),
        cache_dir: "/p/cache".to_string(),
    };
    let paths = GamusPaths::detect(Some("/base".to_string()), Some(platform)).unwrap();
    assert_eq!(paths.base_dir, "/base");
    assert_eq!(paths.config_dir, join("/base", "config"));
}

#[test]
fn platform_directories_are_taken_without_override() {
    let platform = PlatformDirs {
        config_dir: "/p/config".to_string(),
        data_dir: "/p/data".to_string(),
        cache_dir: "/p/cache".to_string(),
    };
    let paths = GamusPaths::new(None, Some(platform)).unwrap();
    assert_eq!(paths.base_dir, "/p/config");
    assert_eq!(paths.config_dir, "/p/config");
    assert_eq!(paths.data_dir, "/p/data");
    assert_eq!(paths.cache_dir, "/p/cache");
}

#[test]
fn no_directories_is_an_error() {
    let e = GamusPaths::new(None, None).unwrap_err();
    assert!(matches!(e, ConfigError::Directories));
    assert_eq!(e.to_string(), "directories error: could not determine home directory");
}

#[test]
fn config_file_lies_in_the_config_directory() {
    let paths = GamusPaths::new(Some("/base".to_string()), None).unwrap();
    assert_eq!(paths.config_file(), join(&join("/base", "config"), "gamus.toml"));
    assert_eq!(paths.database_file(), join(&join("/base", "data"), "gamus.db"));
    assert_eq!(backend().config_file(), paths.config_file());
}

#[test]
fn scanner_defaults() {
    assert_eq!(default_audio_exts(), vec!["mp3", "flac", "ogg"]);
    assert!(default_ignore_hidden());
    let cfg = ScannerConfig::default();
    assert!(cfg.roots.is_empty());
    assert_eq!(cfg.audio_exts, vec!["mp3", "flac", "ogg"]);
    assert!(cfg.ignore_hidden);
    assert_eq!(cfg.max_depth, None);
    let cfg = ScannerConfig::with_dirs(Some("/m".to_string()), Some("/d".to_string()));
    assert_eq!(cfg.roots, vec!["/m", "/d"]);
    let cfg = ScannerConfig::with_dirs(None, Some("/d".to_string()));
    assert_eq!(cfg.roots, vec!["/d"]);
}

#[test]
fn scanner_section_is_read_with_defaults() {
    let read = FileRead::Content(
        "# my music\n[scanner]\nroots = [\"/music\", \"/more\"]\nunknown = 1.5\n".to_string(),
    );
    let (cfg, _) = ScannerConfig::load(&backend(), &read, ScannerConfig::default()).unwrap();
    assert_eq!(cfg.roots, vec!["/music", "/more"]);
    assert_eq!(cfg.audio_exts, vec!["mp3", "flac", "ogg"]);
    assert!(cfg.ignore_hidden);
    assert_eq!(cfg.max_depth, None);
}

#[test]
fn scanner_section_is_read_in_full() {
    let read = FileRead::Content(
        "[scanner]\nroots = []\naudio_exts = [\"wav\"]\nignore_hidden = false\nmax_depth = 7\n"
            .to_string(),
    );
    let (cfg, _) = ScannerConfig::load(&backend(), &read, ScannerConfig::default()).unwrap();
    assert_eq!(
        cfg,
        ScannerConfig {
            roots: vec![],
            audio_exts: vec!["wav".to_string()],
            ignore_hidden: false,
            max_depth: Some(7)
        }
    );
}

#[test]
fn missing_file_or_section_gives_the_default() {
    let default = ScannerConfig::with_dirs(Some("/m".to_string()), None);
    let (cfg, text) =
        ScannerConfig::load(&backend(), &FileRead::NotFound("gone".to_string()), default.clone())
            .unwrap();
    assert_eq!(cfg, default);
    assert_eq!(
        text,
        "[scanner]\nroots = [\"/m\"]\naudio_exts = [\"mp3\", \"flac\", \"ogg\"]\nignore_hidden = true\n"
    );
    let read = FileRead::Content("[storage]\ndb_path = \"x\"\n".to_string());
    let (cfg, text) = ScannerConfig::load(&backend(), &read, default.clone()).unwrap();
    assert_eq!(cfg, default);
    assert_eq!(
        text,
        "[storage]\ndb_path = \"x\"\n\n[scanner]\nroots = [\"/m\"]\naudio_exts = [\"mp3\", \"flac\", \"ogg\"]\nignore_hidden = true\n"
    );
}

#[test]
fn unreadable_file_is_an_io_error() {
    let e = ScannerConfig::load(
        &backend(),
        &FileRead::Failed("permission denied".to_string()),
        ScannerConfig::default(),
    )
    .unwrap_err();
    assert!(matches!(&e, ConfigError::Io(m) if m == "permission denied"));
    assert_eq!(e.to_string(), "io error: permission denied");
}

#[test]
fn invalid_toml_is_a_toml_error() {
    let e = ScannerConfig::load(
        &backend(),
        &FileRead::Content("[scanner\nroots = 3".to_string()),
        ScannerConfig::default(),
    )
    .unwrap_err();
    assert!(matches!(e, ConfigError::Toml(_)));
    assert!(e.to_string().starts_with("toml error: "));
}

#[test]
fn a_section_of_the_wrong_shape_is_a_decode_error() {
    let read = FileRead::Content("[scanner]\naudio_exts = [\"mp3\"]\n".to_string());
    let e = ScannerConfig::load(&backend(), &read, ScannerConfig::default()).unwrap_err();
    assert!(matches!(&e, ConfigError::Other(m) if m == "decode section [scanner]: missing field `roots`"));

    let read = FileRead::Content("[scanner]\nroots = [\"a\", 3]\n".to_string());
    let e = ScannerConfig::load(&backend(), &read, ScannerConfig::default()).unwrap_err();
    assert!(matches!(&e, ConfigError::Other(m) if m == "decode section [scanner]: invalid value for field `roots`"));

    let read = FileRead::Content("[scanner]\nroots = []\nmax_depth = -1\n".to_string());
    let e = ScannerConfig::load(&backend(), &read, ScannerConfig::default()).unwrap_err();
    assert!(matches!(&e, ConfigError::Other(m) if m == "decode section [scanner]: invalid value for field `max_depth`"));

    let read = FileRead::Content("[scanner]\nroots = []\nmax_depth = 4294967296\n".to_string());
    assert!(ScannerConfig::load(&backend(), &read, ScannerConfig::default()).is_err());

    let read = FileRead::Content("[scanner]\nroots = []\nignore_hidden = \"yes\"\n".to_string());
    assert!(ScannerConfig::load(&backend(), &read, ScannerConfig::default()).is_err());
}

#[test]
fn saving_keeps_comments_and_other_sections() {
    let read = FileRead::Content(
        "# keep me\n[storage]\ndb_path = \"x\" # and me\n\n[scanner]\nroots = [\"/old\"]\n"
            .to_string(),
    );
    let cfg = ScannerConfig {
        roots: vec!["/new".to_string()],
        audio_exts: vec!["flac".to_string()],
        ignore_hidden: false,
        max_depth: Some(3),
    };
    let text = cfg.save(&backend(), &read).unwrap();
    assert!(text.contains("# keep me"));
    assert!(text.contains("db_path = \"x\" # and me"));
    assert!(text.contains("roots = [\"/new\"]"));
    assert!(!text.contains("/old"));
    let (back, _) =
        ScannerConfig::load(&backend(), &FileRead::Content(text), ScannerConfig::default()).unwrap();
    assert_eq!(back, cfg);
}

#[test]
fn saving_into_an_invalid_file_fails() {
    let cfg = ScannerConfig::default();
    let e = cfg.save(&backend(), &FileRead::Content("[broken".to_string())).unwrap_err();
    assert!(matches!(&e, ConfigError::Other(m) if m.starts_with("parse toml_edit doc: ")));
    let e = cfg.save(&backend(), &FileRead::Failed("busy".to_string())).unwrap_err();
    assert!(matches!(&e, ConfigError::Io(m) if m == "busy"));
}

#[test]
fn scanner_config_round_trips_through_its_section() {
    for cfg in [
        ScannerConfig::default(),
        ScannerConfig {
            roots: vec!["/a b".to_string(), "C:\\Music \"x\"".to_string()],
            audio_exts: vec![],
            ignore_hidden: false,
            max_depth: Some(u32::MAX),
        },
        ScannerConfig {
            roots: vec!["/ü".to_string()],
            audio_exts: vec!["MP3".to_string()],
            ignore_hidden: true,
            max_depth: Some(0),
        },
    ] {
        assert_eq!(ScannerConfig::from_toml(&cfg.to_toml()), Ok(cfg.clone()));
        let text = cfg.save(&backend(), &FileRead::NotFound(String::new())).unwrap();
        let (back, again) =
            ScannerConfig::load(&backend(), &FileRead::Content(text.clone()), ScannerConfig::default())
                .unwrap();
        assert_eq!(back, cfg);
        assert_eq!(again, text);
    }
}

#[test]
fn storage_config_round_trips_through_its_section() {
    let paths = GamusPaths::new(Some("/base".to_string()), None).unwrap();
    let default = StorageConfig::default_in(&paths);
    assert_eq!(default.db_path, join(&join("/base", "data"), "gamus.db"));
    assert_eq!(default.journal_mode.as_deref(), Some("WAL"));
    for cfg in [
        StorageConfig { db_path: "/x/gamus.db".to_string(), journal_mode: None },
        StorageConfig { db_path: "rel.db".to_string(), journal_mode: Some("DELETE".to_string()) },
    ] {
        assert_eq!(StorageConfig::from_toml(&cfg.to_toml()).as_ref(), Ok(&cfg));
        let text = cfg.save(&backend(), &FileRead::NotFound(String::new())).unwrap();
        let other = StorageConfig { db_path: "other".to_string(), journal_mode: None };
        let (back, _) =
            StorageConfig::load(&backend(), &FileRead::Content(text), other).unwrap();
        assert_eq!(back, cfg);
    }
    let (cfg, text) = StorageConfig::load(
        &backend(),
        &FileRead::NotFound(String::new()),
        StorageConfig { db_path: "d.db".to_string(), journal_mode: Some("WAL".to_string()) },
    )
    .unwrap();
    assert_eq!(cfg.db_path, "d.db");
    assert_eq!(text, "[storage]\ndb_path = \"d.db\"\njournal_mode = \"WAL\"\n");
    let e = StorageConfig::load(
        &backend(),
        &FileRead::Content("[storage]\njournal_mode = \"WAL\"\n".to_string()),
        StorageConfig { db_path: "d.db".to_string(), journal_mode: None },
    )
    .unwrap_err();
    assert_eq!(e.to_string(), "other: decode section [storage]: missing field `db_path`");
}

#[test]
fn fs_section_has_no_default() {
    let read = FileRead::Content(
        "[fs]\naudio_exts = [\"mp3\"]\nignore_hidden = true\n".to_string(),
    );
    let cfg = FsConfig::load(&backend(), &read).unwrap();
    assert_eq!(
        cfg,
        FsConfig { audio_exts: vec!["mp3".to_string()], ignore_hidden: true, max_depth: None }
    );
    let e = FsConfig::load(&backend(), &FileRead::NotFound("no file".to_string())).unwrap_err();
    assert!(matches!(&e, ConfigError::Io(m) if m == "no file"));
    let e = FsConfig::load(&backend(), &FileRead::Content("[scanner]\nroots = []\n".to_string()))
        .unwrap_err();
    let expected = format!("missing section [fs] in {}", backend().config_file());
    assert!(matches!(&e, ConfigError::Other(m) if *m == expected));
    let e = FsConfig::load(&backend(), &FileRead::Content("[fs]\naudio_exts = []\n".to_string()))
        .unwrap_err();
    assert_eq!(e.to_string(), "other: decode section [fs]: missing field `ignore_hidden`");
}

#[test]
fn toml_values_are_looked_up_by_key() {
    let table = TomlValue::Table(vec![
        ("a".to_string(), TomlValue::Integer(1)),
        ("b".to_string(), TomlValue::Boolean(true)),
        ("a".to_string(), TomlValue::Integer(2)),
    ]);
    assert_eq!(table.get("a"), Some(&TomlValue::Integer(1)));
    assert_eq!(table.get("b"), Some(&TomlValue::Boolean(true)));
    assert_eq!(table.get("c"), None);
    assert_eq!(TomlValue::Integer(3).get("a"), None);
    assert_eq!(table.into_field("b"), Some(TomlValue::Boolean(true)));
}

#[test]
fn dto_carries_the_configuration_both_ways() {
    let cfg = ScannerConfig {
        roots: vec!["/a".to_string()],
        audio_exts: vec!["mp3".to_string()],
        ignore_hidden: false,
        max_depth: Some(9),
    };
    let dto = ScannerConfigDto::from_config(cfg.clone());
    assert_eq!(dto.roots, vec!["/a"]);
    assert_eq!(dto.max_depth, Some(9));
    assert_eq!(dto.into_config(), cfg);
}

#[test]
fn an_invalid_file_is_refused_before_the_section_is_encoded() {
    // A float that cannot be read fails the encoding; an invalid file is
    // found first.
    let body = TomlValue::Table(vec![("x".to_string(), TomlValue::Float("one".to_string()))]);
    let e = backend()
        .save_section(&FileRead::Content("[broken".to_string()), "s", &body)
        .unwrap_err();
    assert!(matches!(&e, ConfigError::Other(m) if m.starts_with("parse toml_edit doc: ")));
    let e = backend().save_section(&FileRead::NotFound(String::new()), "s", &body).unwrap_err();
    assert!(matches!(&e, ConfigError::Other(m) if m.starts_with("encode section [s]: ")));
    let e = backend()
        .save_section(&FileRead::NotFound(String::new()), "s", &TomlValue::Integer(3))
        .unwrap_err();
    assert!(matches!(&e, ConfigError::Other(m) if m.starts_with("encode section [s]: ")));
}

#[test]
fn every_kind_of_value_is_written_and_read_back() {
    let body = TomlValue::Table(vec![
        ("text".to_string(), TomlValue::Text("a \"b\"".to_string())),
        ("number".to_string(), TomlValue::Integer(-7)),
        ("ratio".to_string(), TomlValue::Float("1.5".to_string())),
        ("flag".to_string(), TomlValue::Boolean(false)),
        ("day".to_string(), TomlValue::Datetime("1979-05-27".to_string())),
        (
            "list".to_string(),
            TomlValue::Array(vec![TomlValue::Integer(1), TomlValue::Integer(2)]),
        ),
    ]);
    let text = backend().save_section(&FileRead::NotFound(String::new()), "s", &body).unwrap();
    assert_eq!(
        text,
        "[s]\ntext = 'a \"b\"'\nnumber = -7\nratio = 1.5\nflag = false\nday = 1979-05-27\nlist = [1, 2]\n"
    );
    let back = backend().load_section(&FileRead::Content(text), "s").unwrap();
    assert_eq!(back, body);
    let bad = TomlValue::Table(vec![("day".to_string(), TomlValue::Datetime("soon".to_string()))]);
    assert!(backend().save_section(&FileRead::NotFound(String::new()), "s", &bad).is_err());
}
