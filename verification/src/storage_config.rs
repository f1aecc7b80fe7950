//! The store's section of the configuration.

use vstd::prelude::*;
use crate::config::as_text;
use crate::config::decode_error;
use crate::config::decode_message;
use crate::config::extends_by;
use crate::config::field_opt_text;
use crate::config::field_text;
use crate::config::FileRead;
use crate::config::GamusPaths;
use crate::config::read_opt_text;
use crate::config::read_text;
use crate::config::save_outcome;
use crate::config::saved_text;
use crate::config::section_or_default;
use crate::config::TomlConfigBackend;
use crate::errors::ConfigError;
use crate::toml_value::entry_of;
use crate::toml_value::parsed_toml;
use crate::toml_value::TomlValue;

verus! {

/// What the store is configured with.
#[derive(Debug, PartialEq, Eq)]
pub struct StorageConfig {
    /// Path of the database file.
    pub db_path: String,
    /// The journal mode to set when the store is opened, if any.
    pub journal_mode: Option<String>,
}

/// A storage configuration as plain data.
pub struct StorageConfigView {
    pub db_path: Seq<char>,
    pub journal_mode: Option<Seq<char>>,
}

/// The configuration that a `[storage]` section stands for: the database
/// path must be given, the journal mode may be absent.
pub open spec fn decoded_storage(section: TomlValue) -> Result<StorageConfigView, Seq<char>> {
    match field_text(section, "db_path"@) {
        Err(e) => Err(e),
        Ok(db_path) => match field_opt_text(section, "journal_mode"@) {
            Err(e) => Err(e),
            Ok(journal_mode) => Ok(StorageConfigView { db_path, journal_mode }),
        },
    }
}

/// Whether a TOML value is the `[storage]` section of a configuration.
pub open spec fn is_storage_section(v: TomlValue, cfg: StorageConfigView) -> bool {
    &&& v.field("db_path"@) matches Some(path) && as_text(path) == Some(cfg.db_path)
    &&& match cfg.journal_mode {
        Some(mode) => v.field("journal_mode"@) matches Some(m) && as_text(m) == Some(mode),
        None => v.field("journal_mode"@) is None,
    }
}

/// Round trip: the section written for a configuration is read back as that
/// configuration.
pub proof fn lemma_storage_round_trip(v: TomlValue, cfg: StorageConfigView)
    requires
        is_storage_section(v, cfg),
    ensures
        decoded_storage(v) == Ok::<StorageConfigView, Seq<char>>(cfg),
{
}

/// Load after save: where the file that is read back holds, under
/// `storage`, the section that was written for a configuration, loading
/// gives that configuration. That the TOML text written for a section is
/// read back as that section is the part of the crates that write and read
/// it; it is not claimed here.
pub proof fn lemma_storage_load_after_save(
    read_back: FileRead,
    section: TomlValue,
    cfg: StorageConfigView,
)
    requires
        is_storage_section(section, cfg),
        read_back matches FileRead::Content(content) && parsed_toml(content@) matches Ok(doc)
            && doc.field("storage"@) == Some(section),
    ensures
        section_or_default(read_back, "storage"@) matches Ok(Some(found)) && decoded_storage(found)
            == Ok::<StorageConfigView, Seq<char>>(cfg),
{
}

/// Whether `outcome` is what saving a storage configuration gives: the text
/// of the file with a `[storage]` section of the configuration set, or the
/// message of the error.
pub open spec fn is_saved_storage(
    read: FileRead,
    cfg: StorageConfigView,
    outcome: Result<Seq<char>, Seq<char>>,
) -> bool {
    exists|section: TomlValue|
        is_storage_section(section, cfg) && #[trigger] saved_text(read, "storage"@, section)
            == outcome
}

impl StorageConfig {
    /// The configuration as plain data.
    pub open spec fn view(&self) -> StorageConfigView {
        StorageConfigView {
            db_path: self.db_path@,
            journal_mode: match self.journal_mode {
                Some(mode) => Some(mode@),
                None => None,
            },
        }
    }

    /// The fresh configuration: the database `gamus.db` in the data
    /// directory, in journal mode `WAL`.
    pub fn default_in(paths: &GamusPaths) -> (cfg: Self)
        ensures
            extends_by(cfg.db_path@, paths.data_dir@, "gamus.db"@),
            cfg.journal_mode matches Some(mode) && mode@ == "WAL"@,
    {
        StorageConfig { db_path: paths.database_file(), journal_mode: Some(String::from_str("WAL")) }
    }

    /// Reads a configuration from its section.
    pub fn from_toml(section: &TomlValue) -> (r: Result<StorageConfig, String>)
        ensures
            match decoded_storage(*section) {
                Ok(view) => r matches Ok(cfg) && cfg@ == view,
                Err(e) => r matches Err(m) && m@ == e,
            },
    {
        let db_path = match read_text(section, "db_path") {
            Ok(v) => v,
            Err(e) => {
                return Err(e);
            },
        };
        let journal_mode = match read_opt_text(section, "journal_mode") {
            Ok(v) => v,
            Err(e) => {
                return Err(e);
            },
        };
        Ok(StorageConfig { db_path, journal_mode })
    }

    /// Writes the configuration as its section. An absent journal mode is
    /// left out.
    pub fn to_toml(&self) -> (v: TomlValue)
        ensures
            is_storage_section(v, self@),
    {
        let mut entries: Vec<(String, TomlValue)> = Vec::new();
        entries.push((String::from_str("db_path"), TomlValue::Text(self.db_path.clone())));
        if let Some(mode) = &self.journal_mode {
            entries.push((String::from_str("journal_mode"), TomlValue::Text(mode.clone())));
        }
        proof {
            reveal_strlit("db_path");
            reveal_strlit("journal_mode");
            reveal_with_fuel(entry_of, 3);
            assert("db_path"@.len() == 7);
            assert("journal_mode"@.len() == 12);
            assert("db_path"@ != "journal_mode"@);
        }
        TomlValue::Table(entries)
    }

    /// Loads the store's configuration from what was read of the file. Where
    /// the file or its `[storage]` section is missing, `default` is the
    /// configuration. The second part of the result is the text of the file
    /// with the loaded configuration written into it, for the caller to write
    /// back.
    pub fn load(backend: &TomlConfigBackend, read: &FileRead, default: StorageConfig) -> (r: Result<
        (StorageConfig, String),
        ConfigError,
    >)
        ensures
            match section_or_default(*read, "storage"@) {
                Err(e) => r matches Err(f) && f == e,
                Ok(found) => {
                    let loaded = match found {
                        Some(section) => decoded_storage(section),
                        None => Ok(default@),
                    };
                    match loaded {
                        Err(e) => r matches Err(ConfigError::Other(m)) && m@ == decode_message(
                            "storage"@,
                            e,
                        ),
                        Ok(view) => {
                            &&& r matches Ok(pair) ==> pair.0@ == view
                            &&& is_saved_storage(
                                *read,
                                view,
                                match r {
                                    Ok(pair) => Ok(pair.1@),
                                    Err(f) => Err(f.message()),
                                },
                            )
                        },
                    }
                },
            },
    {
        let found = match backend.load_section_with_default(read, "storage") {
            Ok(found) => found,
            Err(e) => {
                return Err(e);
            },
        };
        let cfg = match found {
            Some(section) => match StorageConfig::from_toml(&section) {
                Ok(cfg) => cfg,
                Err(e) => {
                    return Err(decode_error("storage", e.as_str()));
                },
            },
            None => default,
        };
        let section = cfg.to_toml();
        match backend.save_section(read, "storage", &section) {
            Ok(text) => Ok((cfg, text)),
            Err(e) => Err(e),
        }
    }

    /// The text of the configuration file with this configuration written
    /// into its `[storage]` section.
    pub fn save(&self, backend: &TomlConfigBackend, read: &FileRead) -> (r: Result<
        String,
        ConfigError,
    >)
        ensures
            is_saved_storage(*read, self@, save_outcome(r)),
    {
        let section = self.to_toml();
        backend.save_section(read, "storage", &section)
    }
}

} // verus!
