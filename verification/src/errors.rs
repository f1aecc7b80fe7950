//! The error types of the library, each with the message it shows.

use vstd::prelude::*;

verus! {

/// The text `prefix` followed by `detail`.
pub fn prefixed(prefix: &str, detail: &str) -> (out: String)
    ensures
        out@ == prefix@ + detail@,
{
    let mut out = String::from_str(prefix);
    out.append(detail);
    out
}

/// An error of the library service.
#[derive(Debug)]
pub enum CoreError {
    Repository(String),
    Scan(String),
    Metadata(String),
    NotFound,
}

impl CoreError {
    /// The message of the error.
    pub open spec fn message(&self) -> Seq<char> {
        match self {
            CoreError::Repository(detail) => "repository error: "@ + detail@,
            CoreError::Scan(detail) => "scan error: "@ + detail@,
            CoreError::Metadata(detail) => "metadata error: "@ + detail@,
            CoreError::NotFound => "not found"@,
        }
    }

    /// Renders the message of the error.
    pub fn to_string(&self) -> (out: String)
        ensures
            out@ == self.message(),
    {
        match self {
            CoreError::Repository(detail) => prefixed("repository error: ", detail.as_str()),
            CoreError::Scan(detail) => prefixed("scan error: ", detail.as_str()),
            CoreError::Metadata(detail) => prefixed("metadata error: ", detail.as_str()),
            CoreError::NotFound => String::from_str("not found"),
        }
    }
}

/// An error of a repository.
#[derive(Debug)]
pub enum RepoError {
    NotFound,
    Storage(String),
}

impl RepoError {
    /// The message of the error.
    pub open spec fn message(&self) -> Seq<char> {
        match self {
            RepoError::NotFound => "entity not found"@,
            RepoError::Storage(detail) => "storage error: "@ + detail@,
        }
    }

    /// Renders the message of the error.
    pub fn to_string(&self) -> (out: String)
        ensures
            out@ == self.message(),
    {
        match self {
            RepoError::NotFound => String::from_str("entity not found"),
            RepoError::Storage(detail) => prefixed("storage error: ", detail.as_str()),
        }
    }
}

/// Why the metadata of a file could not be extracted.
#[derive(Debug)]
pub enum MetadataError {
    Io(String),
    Unsupported(String),
    Corrupt(String),
    Missing(String),
    Internal(String),
}

impl MetadataError {
    /// The message of the error.
    pub open spec fn message(&self) -> Seq<char> {
        match self {
            MetadataError::Io(detail) => "io error: "@ + detail@,
            MetadataError::Unsupported(detail) => "unsupported format: "@ + detail@,
            MetadataError::Corrupt(detail) => "corrupt metadata: "@ + detail@,
            MetadataError::Missing(detail) => "missing mandatory tag: "@ + detail@,
            MetadataError::Internal(detail) => "internal error: "@ + detail@,
        }
    }

    /// Renders the message of the error.
    pub fn to_string(&self) -> (out: String)
        ensures
            out@ == self.message(),
    {
        match self {
            MetadataError::Io(detail) => prefixed("io error: ", detail.as_str()),
            MetadataError::Unsupported(detail) => prefixed(
                "unsupported format: ",
                detail.as_str(),
            ),
            MetadataError::Corrupt(detail) => prefixed("corrupt metadata: ", detail.as_str()),
            MetadataError::Missing(detail) => prefixed(
                "missing mandatory tag: ",
                detail.as_str(),
            ),
            MetadataError::Internal(detail) => prefixed("internal error: ", detail.as_str()),
        }
    }
}

/// Why a scan of the library failed, as the service sees it.
#[derive(Debug)]
pub enum ScanError {
    Io(String),
    Internal(String),
}

impl ScanError {
    /// The message of the error.
    pub open spec fn message(&self) -> Seq<char> {
        match self {
            ScanError::Io(detail) => "io error: "@ + detail@,
            ScanError::Internal(detail) => "internal error: "@ + detail@,
        }
    }

    /// Renders the message of the error.
    pub fn to_string(&self) -> (out: String)
        ensures
            out@ == self.message(),
    {
        match self {
            ScanError::Io(detail) => prefixed("io error: ", detail.as_str()),
            ScanError::Internal(detail) => prefixed("internal error: ", detail.as_str()),
        }
    }
}

/// Why the configuration could not be read or written.
#[derive(Debug)]
pub enum ConfigError {
    /// The file could not be read or written.
    Io(String),
    /// The file is not valid TOML.
    Toml(String),
    /// No home directory could be determined.
    Directories,
    Other(String),
}

impl ConfigError {
    /// The message of the error.
    pub open spec fn message(&self) -> Seq<char> {
        match self {
            ConfigError::Io(detail) => "io error: "@ + detail@,
            ConfigError::Toml(detail) => "toml error: "@ + detail@,
            ConfigError::Directories =>
                "directories error: could not determine home directory"@,
            ConfigError::Other(detail) => "other: "@ + detail@,
        }
    }

    /// Renders the message of the error.
    pub fn to_string(&self) -> (out: String)
        ensures
            out@ == self.message(),
    {
        match self {
            ConfigError::Io(detail) => prefixed("io error: ", detail.as_str()),
            ConfigError::Toml(detail) => prefixed("toml error: ", detail.as_str()),
            ConfigError::Directories => String::from_str(
                "directories error: could not determine home directory",
            ),
            ConfigError::Other(detail) => prefixed("other: ", detail.as_str()),
        }
    }
}

/// Why the file-system scanner failed.
#[derive(Debug)]
pub enum ScannerError {
    Io(String),
    Walker(String),
    Config(ConfigError),
}

impl ScannerError {
    /// The message of the error.
    pub open spec fn message(&self) -> Seq<char> {
        match self {
            ScannerError::Io(detail) => "io error: "@ + detail@,
            ScannerError::Walker(detail) => "walker error: "@ + detail@,
            ScannerError::Config(inner) => "config error: "@ + inner.message(),
        }
    }

    /// Renders the message of the error.
    pub fn to_string(&self) -> (out: String)
        ensures
            out@ == self.message(),
    {
        match self {
            ScannerError::Io(detail) => prefixed("io error: ", detail.as_str()),
            ScannerError::Walker(detail) => prefixed("walker error: ", detail.as_str()),
            ScannerError::Config(inner) => {
                let detail = inner.to_string();
                prefixed("config error: ", detail.as_str())
            },
        }
    }
}

/// Why the plain scan of one directory tree failed.
#[derive(Debug)]
pub enum FsError {
    Io(String),
    Walker(String),
    Config(ConfigError),
}

impl FsError {
    /// The message of the error.
    pub open spec fn message(&self) -> Seq<char> {
        match self {
            FsError::Io(detail) => "io error: "@ + detail@,
            FsError::Walker(detail) => "walker error: "@ + detail@,
            FsError::Config(inner) => "config error: "@ + inner.message(),
        }
    }

    /// Renders the message of the error.
    pub fn to_string(&self) -> (out: String)
        ensures
            out@ == self.message(),
    {
        match self {
            FsError::Io(detail) => prefixed("io error: ", detail.as_str()),
            FsError::Walker(detail) => prefixed("walker error: ", detail.as_str()),
            FsError::Config(inner) => {
                let detail = inner.to_string();
                prefixed("config error: ", detail.as_str())
            },
        }
    }
}

/// Why a spectral analysis failed.
#[derive(Debug)]
pub enum AnalysisError {
    FileOpen(String),
    FFmpeg(String),
    NoCompatibleTrack,
    InvalidAudioFormat,
}

impl AnalysisError {
    /// The message of the error.
    pub open spec fn message(&self) -> Seq<char> {
        match self {
            AnalysisError::FileOpen(detail) => "File open error: "@ + detail@,
            AnalysisError::FFmpeg(detail) => "FFmpeg error: "@ + detail@,
            AnalysisError::NoCompatibleTrack => "No compatible audio track found"@,
            AnalysisError::InvalidAudioFormat => "Invalid audio format or empty stream"@,
        }
    }

    /// Renders the message of the error.
    pub fn to_string(&self) -> (out: String)
        ensures
            out@ == self.message(),
    {
        match self {
            AnalysisError::FileOpen(detail) => prefixed("File open error: ", detail.as_str()),
            AnalysisError::FFmpeg(detail) => prefixed("FFmpeg error: ", detail.as_str()),
            AnalysisError::NoCompatibleTrack => String::from_str(
                "No compatible audio track found",
            ),
            AnalysisError::InvalidAudioFormat => String::from_str(
                "Invalid audio format or empty stream",
            ),
        }
    }
}

} // verus!
