//! What the spectral analysis says of a track.
//!
//! Levels are in thousandths of a decibel, scores in thousandths of a point,
//! frequencies in hertz.

use vstd::prelude::*;

verus! {

/// What the reverse scan of the spectrum found.
#[derive(Debug, Clone, PartialEq)]
pub enum AnalysisOutcome {
    /// Energy stops well below the Nyquist frequency.
    CutoffDetected { freq: u32, ref_db: i64, cut_db: i64 },
    /// Energy reaches up to the neighbourhood of the Nyquist frequency.
    NoCutoffDetected { ref_db: i64, max_freq: u32 },
    /// No band carries energy above the noise floor.
    Inconclusive(String),
}

/// The quality level shown to the user.
#[derive(Debug, Clone, Copy, PartialEq, Eq, Structural)]
pub enum QualityLevel {
    Perfect,
    High,
    Medium,
    Low,
    Inconclusive,
}

/// The structured report of one analysis.
#[derive(Debug, Clone, PartialEq)]
pub struct AudioQualityReport {
    pub level: QualityLevel,
    pub score: u32,
    pub label: String,
    pub summary: String,
    pub details: Option<String>,
    pub cutoff_freq_hz: Option<u32>,
    pub max_freq_hz: Option<u32>,
}

/// The outcome of one analysis with its score, assessment and report.
#[derive(Debug, Clone, PartialEq)]
pub struct AudioQuality {
    pub outcome: AnalysisOutcome,
    pub quality_score: u32,
    pub assessment: String,
    pub report: AudioQualityReport,
}

} // verus!
