//! The plain scan of one directory tree for audio files, configured by the
//! `[fs]` section.

use vstd::prelude::*;
use crate::config::decode_error;
use crate::config::decode_message;
use crate::config::extends_by;
use crate::config::field_flag;
use crate::config::field_opt_u32;
use crate::config::field_text_list;
use crate::config::FileRead;
use crate::config::missing_section_message;
use crate::config::read_flag;
use crate::config::read_opt_u32;
use crate::config::read_text_list;
use crate::config::texts_of;
use crate::config::TomlConfigBackend;
use crate::errors::ConfigError;
use crate::fs_scanner::audio_name;
use crate::fs_scanner::DEFAULT_MAX_DEPTH;
use crate::fs_scanner::filter_answer;
use crate::fs_scanner::FoundEntry;
use crate::paths::extension_of;
use crate::paths::is_hidden;
use crate::scanner_config::copy_strings;
use crate::text::eq_ignore_ascii_case;
use crate::text::lowercase_of;
use crate::text::same_ignoring_ascii_case;
use crate::text::str_eq;
use crate::text::to_lowercase;
use crate::toml_value::parsed_toml;
use crate::toml_value::TomlValue;
use crate::walker::Filtering;
use crate::walker::WalkConfig;

verus! {

/// The `[fs]` section of the configuration.
#[derive(Debug, PartialEq, Eq)]
pub struct FsConfig {
    /// Extensions of audio files, compared without regard to case.
    pub audio_exts: Vec<String>,
    pub ignore_hidden: bool,
    /// Depth limit of the walk; 50 where none is set.
    pub max_depth: Option<u32>,
}

impl Clone for FsConfig {
    fn clone(&self) -> (r: Self)
        ensures
            r.audio_exts@ == self.audio_exts@,
            r.ignore_hidden == self.ignore_hidden,
            r.max_depth == self.max_depth,
    {
        FsConfig {
            audio_exts: copy_strings(&self.audio_exts),
            ignore_hidden: self.ignore_hidden,
            max_depth: self.max_depth,
        }
    }
}

/// An audio file with what the file system says of it.
#[derive(Debug, PartialEq, Eq)]
pub struct ScannedFile {
    pub path: String,
    /// Size in bytes.
    pub size: u64,
    /// Last modification, in seconds since the Unix epoch.
    pub modified: u64,
}

/// Whether a file of this name counts as audio under the configuration: its
/// extension, in lower case, is one of the configured ones, case apart.
pub fn is_audio(file_name: &str, cfg: &FsConfig) -> (r: bool)
    ensures
        r == audio_name(file_name@, cfg.audio_exts@),
{
    let ext = match extension_of(file_name) {
        Some(ext) => to_lowercase(ext.as_str()),
        None => {
            return false;
        },
    };
    let mut i: usize = 0;
    while i < cfg.audio_exts.len()
        invariant
            i <= cfg.audio_exts.len(),
            crate::paths::extension(file_name@) matches Some(e) && ext@ == lowercase_of(e),
            forall|j: int| 0 <= j < i ==> !same_ignoring_ascii_case(cfg.audio_exts@[j]@, ext@),
        decreases cfg.audio_exts.len() - i,
    {
        if eq_ignore_ascii_case(cfg.audio_exts[i].as_str(), ext.as_str()) {
            return true;
        }
        i += 1;
    }
    false
}

/// The filter of the plain scan: hidden entries are never entered, `.tmp`
/// entries never yielded.
pub fn entry_filter(file_name: Option<&str>) -> (r: Filtering)
    ensures
        r == filter_answer(
            match file_name {
                Some(name) => Some(name@),
                None => None,
            },
            true,
        ),
{
    match file_name {
        Some(name) => {
            if is_hidden(name) {
                return Filtering::IgnoreDir;
            }
            match extension_of(name) {
                Some(ext) => {
                    if str_eq(ext.as_str(), "tmp") {
                        Filtering::Ignore
                    } else {
                        Filtering::Continue
                    }
                },
                None => Filtering::Continue,
            }
        },
        None => Filtering::Continue,
    }
}

/// How the plain scan walks: links are not followed, directories are
/// entered once, to the configured depth or 50.
pub fn walk_config(cfg: &FsConfig) -> (r: WalkConfig)
    ensures
        r.follow_symlinks == false,
        r.dedup_dirs == true,
        r.max_depth == match cfg.max_depth {
            Some(d) => d as usize,
            None => DEFAULT_MAX_DEPTH as usize,
        },
{
    let depth: u32 = match cfg.max_depth {
        Some(d) => d,
        None => DEFAULT_MAX_DEPTH,
    };
    WalkConfig { follow_symlinks: false, max_depth: depth as usize, dedup_dirs: true }
}

/// Whether the plain scan keeps an entry: a regular file with an audio name
/// whose size and modification time could be read.
pub open spec fn keeps(entry: FoundEntry, exts: Seq<String>) -> bool {
    &&& entry.is_file
    &&& entry.file_name matches Some(name) && audio_name(name@, exts)
    &&& entry.stat is Some
}

/// The file that a kept entry becomes.
pub open spec fn file_of(entry: FoundEntry) -> ScannedFile {
    match entry.stat {
        Some((size, modified)) => ScannedFile { path: entry.path, size, modified },
        None => ScannedFile { path: entry.path, size: 0, modified: 0 },
    }
}

/// The files of a plain scan: the kept entries, in the order of the walk.
pub open spec fn kept_files(entries: Seq<FoundEntry>, exts: Seq<String>) -> Seq<ScannedFile>
    decreases entries.len(),
{
    if entries.len() == 0 {
        Seq::empty()
    } else if keeps(entries.last(), exts) {
        kept_files(entries.drop_last(), exts).push(file_of(entries.last()))
    } else {
        kept_files(entries.drop_last(), exts)
    }
}

/// Collects the audio files among the entries of a walk. An entry whose
/// size or modification time could not be read is dropped; the scan goes on.
pub fn scan_music_files(cfg: &FsConfig, entries: &Vec<FoundEntry>) -> (files: Vec<ScannedFile>)
    ensures
        files@ == kept_files(entries@, cfg.audio_exts@),
{
    let mut files: Vec<ScannedFile> = Vec::new();
    let mut i: usize = 0;
    while i < entries.len()
        invariant
            i <= entries.len(),
            files@ == kept_files(entries@.take(i as int), cfg.audio_exts@),
        decreases entries.len() - i,
    {
        assert(entries@.take(i + 1).drop_last() == entries@.take(i as int));
        let entry = &entries[i];
        let wanted = match &entry.file_name {
            Some(name) => entry.is_file && is_audio(name.as_str(), cfg),
            None => false,
        };
        if wanted {
            match entry.stat {
                Some((size, modified)) => {
                    files.push(ScannedFile { path: entry.path.clone(), size, modified });
                },
                None => {},
            }
        }
        i += 1;
    }
    assert(entries@.take(entries@.len() as int) == entries@);
    files
}

/// An `[fs]` configuration as plain data.
pub struct FsConfigView {
    pub audio_exts: Seq<Seq<char>>,
    pub ignore_hidden: bool,
    pub max_depth: Option<u32>,
}

/// The configuration that an `[fs]` section stands for: extensions and the
/// hidden flag must be given, the depth limit may be absent.
pub open spec fn decoded_fs(section: TomlValue) -> Result<FsConfigView, Seq<char>> {
    match field_text_list(section, "audio_exts"@, None) {
        Err(e) => Err(e),
        Ok(audio_exts) => match field_flag(section, "ignore_hidden"@, None) {
            Err(e) => Err(e),
            Ok(ignore_hidden) => match field_opt_u32(section, "max_depth"@) {
                Err(e) => Err(e),
                Ok(max_depth) => Ok(FsConfigView { audio_exts, ignore_hidden, max_depth }),
            },
        },
    }
}

impl FsConfig {
    /// The configuration as plain data.
    pub open spec fn view(&self) -> FsConfigView {
        FsConfigView {
            audio_exts: texts_of(self.audio_exts@),
            ignore_hidden: self.ignore_hidden,
            max_depth: self.max_depth,
        }
    }

    /// Reads a configuration from its section.
    pub fn from_toml(section: &TomlValue) -> (r: Result<FsConfig, String>)
        ensures
            match decoded_fs(*section) {
                Ok(view) => r matches Ok(cfg) && cfg@ == view,
                Err(e) => r matches Err(m) && m@ == e,
            },
    {
        let audio_exts = match read_text_list(section, "audio_exts", None) {
            Ok(v) => v,
            Err(e) => {
                return Err(e);
            },
        };
        let ignore_hidden = match read_flag(section, "ignore_hidden", None) {
            Ok(v) => v,
            Err(e) => {
                return Err(e);
            },
        };
        let max_depth = match read_opt_u32(section, "max_depth") {
            Ok(v) => v,
            Err(e) => {
                return Err(e);
            },
        };
        Ok(FsConfig { audio_exts, ignore_hidden, max_depth })
    }

    /// Loads the `[fs]` section from what was read of the configuration
    /// file. There is no default: a missing file or section is an error.
    pub fn load(backend: &TomlConfigBackend, read: &FileRead) -> (r: Result<FsConfig, ConfigError>)
        ensures
            match *read {
                FileRead::NotFound(e) => r matches Err(ConfigError::Io(m)) && m == e,
                FileRead::Failed(e) => r matches Err(ConfigError::Io(m)) && m == e,
                FileRead::Content(content) => match parsed_toml(content@) {
                    Err(e) => r matches Err(ConfigError::Toml(m)) && m == e,
                    Ok(doc) => match doc.field("fs"@) {
                        None => r matches Err(ConfigError::Other(m)) && exists|path: Seq<char>|
                            #![trigger missing_section_message("fs"@, path)]
                            extends_by(path, backend@.config_dir@, "gamus.toml"@) && m@
                                == missing_section_message("fs"@, path),
                        Some(section) => match decoded_fs(section) {
                            Ok(view) => r matches Ok(cfg) && cfg@ == view,
                            Err(e) => r matches Err(ConfigError::Other(m)) && m@ == decode_message(
                                "fs"@,
                                e,
                            ),
                        },
                    },
                },
            },
    {
        let section = match backend.load_section(read, "fs") {
            Ok(section) => section,
            Err(e) => {
                return Err(e);
            },
        };
        match FsConfig::from_toml(&section) {
            Ok(cfg) => Ok(cfg),
            Err(e) => Err(decode_error("fs", e.as_str())),
        }
    }

}

} // verus!
