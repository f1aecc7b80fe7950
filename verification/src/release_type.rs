//! The kinds of release.

use vstd::prelude::*;
use crate::text::lowercase_of;
use crate::text::str_eq;
use crate::text::to_lowercase;
use crate::text::trim;
use crate::text::trimmed;

verus! {

/// The kind of a release; a text that names no standard kind is kept as a
/// custom kind.
#[derive(Debug, Clone, PartialEq, Eq)]
pub enum ReleaseType {
    Album,
    EP,
    Single,
    Compilation,
    Mix,
    Custom(String),
}

/// The standard kinds, without the text of a custom one.
#[derive(Debug, Clone, Copy, PartialEq, Eq, Structural)]
pub enum StandardReleaseType {
    Album,
    EP,
    Single,
    Compilation,
    Mix,
}

/// The normal form of a release kind: trimmed and lowercased.
pub open spec fn normalized_release_type(s: Seq<char>) -> Seq<char> {
    lowercase_of(trimmed(s))
}

/// The standard kind that a normal form names, if any.
pub open spec fn release_type_named(n: Seq<char>) -> Option<StandardReleaseType> {
    if n == "album"@ || n == "cd"@ || n == "lp"@ || n == "vinyl"@ || n == "album/cd"@ {
        Some(StandardReleaseType::Album)
    } else if n == "ep"@ {
        Some(StandardReleaseType::EP)
    } else if n == "single"@ {
        Some(StandardReleaseType::Single)
    } else if n == "compilation"@ {
        Some(StandardReleaseType::Compilation)
    } else if n == "mix"@ || n == "dj-mix"@ || n == "mixtape"@ {
        Some(StandardReleaseType::Mix)
    } else {
        None
    }
}

impl ReleaseType {
    /// The standard kind that this is, unless it is a custom one.
    pub open spec fn standard(&self) -> Option<StandardReleaseType> {
        match self {
            ReleaseType::Album => Some(StandardReleaseType::Album),
            ReleaseType::EP => Some(StandardReleaseType::EP),
            ReleaseType::Single => Some(StandardReleaseType::Single),
            ReleaseType::Compilation => Some(StandardReleaseType::Compilation),
            ReleaseType::Mix => Some(StandardReleaseType::Mix),
            ReleaseType::Custom(text) => None,
        }
    }

    /// The name of the kind as it is shown: a custom kind shows its text.
    pub open spec fn name(&self) -> Seq<char> {
        match self {
            ReleaseType::Album => "Album"@,
            ReleaseType::EP => "EP"@,
            ReleaseType::Single => "Single"@,
            ReleaseType::Compilation => "Compilation"@,
            ReleaseType::Mix => "Mix"@,
            ReleaseType::Custom(text) => text@,
        }
    }

    /// The name of the kind as it is shown.
    pub fn to_string(&self) -> (out: String)
        ensures
            out@ == self.name(),
    {
        match self {
            ReleaseType::Album => String::from_str("Album"),
            ReleaseType::EP => String::from_str("EP"),
            ReleaseType::Single => String::from_str("Single"),
            ReleaseType::Compilation => String::from_str("Compilation"),
            ReleaseType::Mix => String::from_str("Mix"),
            ReleaseType::Custom(text) => text.clone(),
        }
    }

    /// The standard kind that a text in normal form names, if any.
    pub fn from_normalized(n: &str) -> (r: Option<ReleaseType>)
        ensures
            r is Some <==> release_type_named(n@) is Some,
            r matches Some(kind) ==> kind.standard() == release_type_named(n@),
    {
        if str_eq(n, "album") || str_eq(n, "cd") || str_eq(n, "lp") || str_eq(n, "vinyl")
            || str_eq(n, "album/cd") {
            Some(ReleaseType::Album)
        } else if str_eq(n, "ep") {
            Some(ReleaseType::EP)
        } else if str_eq(n, "single") {
            Some(ReleaseType::Single)
        } else if str_eq(n, "compilation") {
            Some(ReleaseType::Compilation)
        } else if str_eq(n, "mix") || str_eq(n, "dj-mix") || str_eq(n, "mixtape") {
            Some(ReleaseType::Mix)
        } else {
            None
        }
    }

    /// Reads a release kind. Every text is one: its normal form names a
    /// standard kind, or the text is kept as a custom kind, unchanged.
    pub fn from_str(s: &str) -> (kind: ReleaseType)
        ensures
            kind.standard() == release_type_named(normalized_release_type(s@)),
            release_type_named(normalized_release_type(s@)) is None ==> (kind matches
            ReleaseType::Custom(text) && text@ == s@),
    {
        let trimmed_text = trim(s);
        let n = to_lowercase(trimmed_text.as_str());
        match ReleaseType::from_normalized(n.as_str()) {
            Some(kind) => kind,
            None => ReleaseType::Custom(String::from_str(s)),
        }
    }
}

} // verus!
