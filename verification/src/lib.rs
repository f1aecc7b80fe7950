//! Ingestion core of a personal music library.
//!
//! The library holds the decisions of the ingestion pipeline, each with its
//! contract: which entries of a walk are audio files and how they are
//! grouped by device; how the tags and stream properties of a file become a
//! song, a release and a track; where the spectrum of a file is cut off and
//! what score that earns; in what order a file is probed and saved, and which
//! progress events an ingestion sends; what saving to the catalog means.
//!
//! Reading files, decoding audio and talking to the database are left to the
//! caller, which hands in what it read and carries out what is decided.
//! Fractional quantities are integers throughout: levels in thousandths of a
//! decibel, scores in thousandths of a point, ratings in ten-thousandths.

pub mod adapter;
pub mod analysis_config;
pub mod catalog;
pub mod config;
pub mod config_model;
pub mod device;
pub mod device_other;
pub mod device_windows;
pub mod domain;
pub mod errors;
pub mod fs;
pub mod fs_scanner;
pub mod genre_styles;
pub mod ids;
pub mod mapping;
pub mod paths;
pub mod probe;
pub mod quality;
pub mod rating;
pub mod release_type;
pub mod scan;
pub mod scanner_config;
pub mod service;
pub mod spectral;
pub mod storage;
pub mod storage_config;
pub mod system;
pub mod tag_keys;
pub mod text;
pub mod toml_value;
pub mod tracks;
pub mod walker;
pub mod windowing;
