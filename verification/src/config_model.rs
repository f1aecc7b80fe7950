//! The whole configuration as one value.

use vstd::prelude::*;

verus! {

/// The `[fs]` section.
#[derive(Debug, PartialEq, Eq)]
pub struct FsConfig {
    pub audio_exts: Vec<String>,
    pub ignore_hidden: bool,
    pub max_depth: Option<u32>,
}

/// The `[storage]` section, the database named by its file name.
#[derive(Debug, PartialEq, Eq)]
pub struct StorageConfig {
    pub db_filename: String,
    pub journal_mode: Option<String>,
}

/// All sections of the configuration.
#[derive(Debug, PartialEq, Eq)]
pub struct AppConfig {
    pub fs: FsConfig,
    pub storage: StorageConfig,
}

} // verus!
