//! The scanner's section of the configuration.

use vstd::prelude::*;
use crate::config::as_flag;
use crate::config::as_text_list;
use crate::config::as_u32;
use crate::config::decode_error;
use crate::config::decode_message;
use crate::config::field_flag;
use crate::config::field_opt_u32;
use crate::config::field_text_list;
use crate::config::FileRead;
use crate::config::read_flag;
use crate::config::read_opt_u32;
use crate::config::read_text_list;
use crate::config::save_outcome;
use crate::config::saved_text;
use crate::config::section_or_default;
use crate::config::text_list_value;
use crate::config::texts_of;
use crate::config::TomlConfigBackend;
use crate::errors::ConfigError;
use crate::toml_value::entry_of;
use crate::toml_value::parsed_toml;
use crate::toml_value::TomlValue;

verus! {

/// What the scanner is configured with.
#[derive(Debug, PartialEq, Eq)]
pub struct ScannerConfig {
    /// Root directories to scan.
    pub roots: Vec<String>,
    /// Extensions of audio files, compared without regard to case.
    pub audio_exts: Vec<String>,
    /// Whether hidden files and directories are passed over.
    pub ignore_hidden: bool,
    /// Depth limit of the walk; 50 where none is set.
    pub max_depth: Option<u32>,
}

/// The extensions of a fresh configuration.
pub open spec fn default_exts() -> Seq<Seq<char>> {
    seq!["mp3"@, "flac"@, "ogg"@]
}

/// The extensions of a fresh configuration: `mp3`, `flac`, `ogg`.
pub fn default_audio_exts() -> (exts: Vec<String>)
    ensures
        texts_of(exts@) == default_exts(),
{
    let mut exts: Vec<String> = Vec::new();
    exts.push(String::from_str("mp3"));
    exts.push(String::from_str("flac"));
    exts.push(String::from_str("ogg"));
    assert(texts_of(exts@) == default_exts());
    exts
}

/// Whether a fresh configuration passes over hidden entries: it does.
pub fn default_ignore_hidden() -> (r: bool)
    ensures
        r,
{
    true
}

/// A copy of a list of strings.
pub fn copy_strings(v: &Vec<String>) -> (r: Vec<String>)
    ensures
        r@ == v@,
{
    let mut r: Vec<String> = Vec::new();
    let mut i: usize = 0;
    while i < v.len()
        invariant
            i <= v.len(),
            r@ == v@.take(i as int),
        decreases v.len() - i,
    {
        assert(v@.take(i + 1) == v@.take(i as int).push(v@[i as int]));
        r.push(v[i].clone());
        i += 1;
    }
    assert(v@.take(v@.len() as int) == v@);
    r
}

impl Clone for ScannerConfig {
    fn clone(&self) -> (r: Self)
        ensures
            r.roots@ == self.roots@,
            r.audio_exts@ == self.audio_exts@,
            r.ignore_hidden == self.ignore_hidden,
            r.max_depth == self.max_depth,
    {
        ScannerConfig {
            roots: copy_strings(&self.roots),
            audio_exts: copy_strings(&self.audio_exts),
            ignore_hidden: self.ignore_hidden,
            max_depth: self.max_depth,
        }
    }
}

impl ScannerConfig {
    /// The fresh configuration of a user whose music and download
    /// directories are the given ones, where known: these are the roots, in
    /// that order.
    pub fn with_dirs(audio_dir: Option<String>, download_dir: Option<String>) -> (cfg: Self)
        ensures
            texts_of(cfg.roots@) == (match audio_dir {
                Some(d) => seq![d@],
                None => Seq::<Seq<char>>::empty(),
            }) + (match download_dir {
                Some(d) => seq![d@],
                None => Seq::<Seq<char>>::empty(),
            }),
            texts_of(cfg.audio_exts@) == default_exts(),
            cfg.ignore_hidden,
            cfg.max_depth is None,
    {
        let mut roots: Vec<String> = Vec::new();
        if let Some(d) = audio_dir {
            roots.push(d);
        }
        if let Some(d) = download_dir {
            roots.push(d);
        }
        let cfg = ScannerConfig {
            roots,
            audio_exts: default_audio_exts(),
            ignore_hidden: default_ignore_hidden(),
            max_depth: None,
        };
        assert(texts_of(cfg.roots@) == (match audio_dir {
            Some(d) => seq![d@],
            None => Seq::<Seq<char>>::empty(),
        }) + (match download_dir {
            Some(d) => seq![d@],
            None => Seq::<Seq<char>>::empty(),
        }));
        cfg
    }
}

impl Default for ScannerConfig {
    fn default() -> (cfg: Self)
        ensures
            cfg.roots@.len() == 0,
            texts_of(cfg.audio_exts@) == default_exts(),
            cfg.ignore_hidden,
            cfg.max_depth is None,
    {
        ScannerConfig {
            roots: Vec::new(),
            audio_exts: default_audio_exts(),
            ignore_hidden: default_ignore_hidden(),
            max_depth: None,
        }
    }
}

/// The scanner's configuration as the user interface exchanges it.
#[derive(Debug, PartialEq, Eq)]
pub struct ScannerConfigDto {
    pub roots: Vec<String>,
    pub audio_exts: Vec<String>,
    pub ignore_hidden: bool,
    pub max_depth: Option<u32>,
}

impl ScannerConfigDto {
    /// The configuration as the user interface exchanges it.
    pub fn from_config(cfg: ScannerConfig) -> (dto: Self)
        ensures
            dto.roots == cfg.roots,
            dto.audio_exts == cfg.audio_exts,
            dto.ignore_hidden == cfg.ignore_hidden,
            dto.max_depth == cfg.max_depth,
    {
        ScannerConfigDto {
            roots: cfg.roots,
            audio_exts: cfg.audio_exts,
            ignore_hidden: cfg.ignore_hidden,
            max_depth: cfg.max_depth,
        }
    }

    /// The configuration that the user interface sent.
    pub fn into_config(self) -> (cfg: ScannerConfig)
        ensures
            cfg.roots == self.roots,
            cfg.audio_exts == self.audio_exts,
            cfg.ignore_hidden == self.ignore_hidden,
            cfg.max_depth == self.max_depth,
    {
        ScannerConfig {
            roots: self.roots,
            audio_exts: self.audio_exts,
            ignore_hidden: self.ignore_hidden,
            max_depth: self.max_depth,
        }
    }
}

/// A scanner configuration as plain data.
pub struct ScannerConfigView {
    pub roots: Seq<Seq<char>>,
    pub audio_exts: Seq<Seq<char>>,
    pub ignore_hidden: bool,
    pub max_depth: Option<u32>,
}

/// The configuration that a `[scanner]` section stands for. The roots must
/// be given; extensions and the hidden flag fall back to their defaults; the
/// depth limit may be absent. Keys that the scanner does not know are passed
/// over.
pub open spec fn decoded_scanner(section: TomlValue) -> Result<ScannerConfigView, Seq<char>> {
    match field_text_list(section, "roots"@, None) {
        Err(e) => Err(e),
        Ok(roots) => match field_text_list(section, "audio_exts"@, Some(default_exts())) {
            Err(e) => Err(e),
            Ok(audio_exts) => match field_flag(section, "ignore_hidden"@, Some(true)) {
                Err(e) => Err(e),
                Ok(ignore_hidden) => match field_opt_u32(section, "max_depth"@) {
                    Err(e) => Err(e),
                    Ok(max_depth) => Ok(
                        ScannerConfigView { roots, audio_exts, ignore_hidden, max_depth },
                    ),
                },
            },
        },
    }
}

/// Whether a TOML value is the `[scanner]` section of a configuration: a
/// table with the roots, the extensions, the hidden flag and, where there is
/// a depth limit, the limit.
pub open spec fn is_scanner_section(v: TomlValue, cfg: ScannerConfigView) -> bool {
    &&& v.field("roots"@) matches Some(roots) && as_text_list(roots) == Some(cfg.roots)
    &&& v.field("audio_exts"@) matches Some(exts) && as_text_list(exts) == Some(cfg.audio_exts)
    &&& v.field("ignore_hidden"@) matches Some(flag) && as_flag(flag) == Some(cfg.ignore_hidden)
    &&& match cfg.max_depth {
        Some(depth) => v.field("max_depth"@) matches Some(d) && as_u32(d) == Some(depth),
        None => v.field("max_depth"@) is None,
    }
}

/// Round trip: the section written for a configuration is read back as that
/// configuration.
pub proof fn lemma_scanner_round_trip(v: TomlValue, cfg: ScannerConfigView)
    requires
        is_scanner_section(v, cfg),
    ensures
        decoded_scanner(v) == Ok::<ScannerConfigView, Seq<char>>(cfg),
{
}

/// Load after save: where the file that is read back holds, under
/// `scanner`, the section that was written for a configuration, loading
/// gives that configuration. That the TOML text written for a section is
/// read back as that section is the part of the crates that write and read
/// it; it is not claimed here.
pub proof fn lemma_scanner_load_after_save(
    read_back: FileRead,
    section: TomlValue,
    cfg: ScannerConfigView,
)
    requires
        is_scanner_section(section, cfg),
        read_back matches FileRead::Content(content) && parsed_toml(content@) matches Ok(doc)
            && doc.field("scanner"@) == Some(section),
    ensures
        section_or_default(read_back, "scanner"@) matches Ok(Some(found)) && decoded_scanner(found)
            == Ok::<ScannerConfigView, Seq<char>>(cfg),
{
}

impl ScannerConfig {
    /// The configuration as plain data.
    pub open spec fn view(&self) -> ScannerConfigView {
        ScannerConfigView {
            roots: texts_of(self.roots@),
            audio_exts: texts_of(self.audio_exts@),
            ignore_hidden: self.ignore_hidden,
            max_depth: self.max_depth,
        }
    }

    /// Reads a configuration from its section.
    pub fn from_toml(section: &TomlValue) -> (r: Result<ScannerConfig, String>)
        ensures
            match decoded_scanner(*section) {
                Ok(view) => r matches Ok(cfg) && cfg@ == view,
                Err(e) => r matches Err(m) && m@ == e,
            },
    {
        let roots = match read_text_list(section, "roots", None) {
            Ok(v) => v,
            Err(e) => {
                return Err(e);
            },
        };
        let audio_exts = match read_text_list(section, "audio_exts", Some(default_audio_exts())) {
            Ok(v) => v,
            Err(e) => {
                return Err(e);
            },
        };
        let ignore_hidden = match read_flag(
            section,
            "ignore_hidden",
            Some(default_ignore_hidden()),
        ) {
            Ok(v) => v,
            Err(e) => {
                return Err(e);
            },
        };
        let max_depth = match read_opt_u32(section, "max_depth") {
            Ok(v) => v,
            Err(e) => {
                return Err(e);
            },
        };
        Ok(ScannerConfig { roots, audio_exts, ignore_hidden, max_depth })
    }

    /// Writes the configuration as its section. An absent depth limit is
    /// left out.
    pub fn to_toml(&self) -> (v: TomlValue)
        ensures
            is_scanner_section(v, self@),
    {
        let mut entries: Vec<(String, TomlValue)> = Vec::new();
        entries.push((String::from_str("roots"), text_list_value(&self.roots)));
        entries.push((String::from_str("audio_exts"), text_list_value(&self.audio_exts)));
        entries.push((String::from_str("ignore_hidden"), TomlValue::Boolean(self.ignore_hidden)));
        if let Some(depth) = self.max_depth {
            entries.push((String::from_str("max_depth"), TomlValue::Integer(depth as i64)));
        }
        proof {
            reveal_strlit("roots");
            reveal_strlit("audio_exts");
            reveal_strlit("ignore_hidden");
            reveal_strlit("max_depth");
            reveal_with_fuel(entry_of, 5);
            assert("roots"@.len() == 5);
            assert("audio_exts"@.len() == 10);
            assert("ignore_hidden"@.len() == 13);
            assert("max_depth"@.len() == 9);
            assert("roots"@ != "audio_exts"@);
            assert("roots"@ != "ignore_hidden"@);
            assert("roots"@ != "max_depth"@);
            assert("audio_exts"@ != "ignore_hidden"@);
            assert("audio_exts"@ != "max_depth"@);
            assert("ignore_hidden"@ != "max_depth"@);
        }
        TomlValue::Table(entries)
    }

    /// Loads the scanner's configuration from what was read of the file.
    /// Where the file or its `[scanner]` section is missing, `default` is
    /// the configuration. The second part of the result is the text of the
    /// file with the loaded configuration written into it, for the caller to
    /// write back.
    pub fn load(backend: &TomlConfigBackend, read: &FileRead, default: ScannerConfig) -> (r: Result<
        (ScannerConfig, String),
        ConfigError,
    >)
        ensures
            match section_or_default(*read, "scanner"@) {
                Err(e) => r matches Err(f) && f == e,
                Ok(found) => {
                    let loaded = match found {
                        Some(section) => decoded_scanner(section),
                        None => Ok(default@),
                    };
                    match loaded {
                        Err(e) => r matches Err(ConfigError::Other(m)) && m@ == decode_message(
                            "scanner"@,
                            e,
                        ),
                        Ok(view) => {
                            &&& r matches Ok(pair) ==> pair.0@ == view
                            &&& is_saved_scanner(
                                *read,
                                view,
                                match r {
                                    Ok(pair) => Ok(pair.1@),
                                    Err(f) => Err(f.message()),
                                },
                            )
                        },
                    }
                },
            },
    {
        let found = match backend.load_section_with_default(read, "scanner") {
            Ok(found) => found,
            Err(e) => {
                return Err(e);
            },
        };
        let cfg = match found {
            Some(section) => match ScannerConfig::from_toml(&section) {
                Ok(cfg) => cfg,
                Err(e) => {
                    return Err(decode_error("scanner", e.as_str()));
                },
            },
            None => default,
        };
        let section = cfg.to_toml();
        match backend.save_section(read, "scanner", &section) {
            Ok(text) => Ok((cfg, text)),
            Err(e) => Err(e),
        }
    }

    /// The text of the configuration file with this configuration written
    /// into its `[scanner]` section.
    pub fn save(&self, backend: &TomlConfigBackend, read: &FileRead) -> (r: Result<
        String,
        ConfigError,
    >)
        ensures
            is_saved_scanner(*read, self@, save_outcome(r)),
    {
        let section = self.to_toml();
        backend.save_section(read, "scanner", &section)
    }
}

/// Whether `outcome` is what saving a scanner configuration gives: the text
/// of the file with a `[scanner]` section of the configuration set, or the
/// message of the error.
pub open spec fn is_saved_scanner(
    read: FileRead,
    cfg: ScannerConfigView,
    outcome: Result<Seq<char>, Seq<char>>,
) -> bool {
    exists|section: TomlValue|
        is_scanner_section(section, cfg) && #[trigger] saved_text(read, "scanner"@, section)
            == outcome
}

} // verus!
