//! Tunable parameters of the spectral analyzer.
//!
//! Fractional quantities are held as integers so that every comparison the
//! analyzer makes is exact: levels in thousandths of a decibel, scores in
//! thousandths of a point (`10_000` is the best score, 10.0), durations in
//! thousandths of a second. Frequencies are whole hertz, bitrates bits per
//! second.

use vstd::prelude::*;

verus! {

/// The best quality score, 10.0, in thousandths.
pub const MAX_SCORE: u32 = 10_000;

/// How the noise floor is derived.
#[derive(Debug, Clone, Copy, PartialEq, Eq, Structural)]
pub struct NoiseConfig {
    /// Base noise threshold, in thousandths of a decibel.
    pub base_floor_db: i32,
    /// Distance below the global maximum at which the dynamic floor lies, in
    /// thousandths of a decibel.
    pub dynamic_margin_db: i32,
}

impl Default for NoiseConfig {
    fn default() -> (r: Self)
        ensures
            r.base_floor_db == -65_000,
            r.dynamic_margin_db == 70_000,
    {
        NoiseConfig { base_floor_db: -65_000, dynamic_margin_db: 70_000 }
    }
}

/// How the reverse scan walks down from the Nyquist frequency.
#[derive(Debug, Clone, Copy, PartialEq, Eq, Structural)]
pub struct ReverseScanConfig {
    /// Width of one scanned band, in hertz. Widths under 100 Hz count as 100.
    pub band_width_hz: u32,
    /// A band further below Nyquist than this many hertz is a cutoff.
    pub margin_from_nyquist_hz: u32,
}

impl Default for ReverseScanConfig {
    fn default() -> (r: Self)
        ensures
            r == (ReverseScanConfig { band_width_hz: 1_000, margin_from_nyquist_hz: 1_500 }),
    {
        ReverseScanConfig { band_width_hz: 1_000, margin_from_nyquist_hz: 1_500 }
    }
}

/// The score that a table of `(freq_hz, score)` pairs gives to a cutoff at
/// `freq_hz`, looking from entry `from` on: that of the first entry whose
/// frequency is not above the cutoff, else `fallback`.
pub open spec fn cutoff_score_from(
    bands: Seq<(u32, u32)>,
    fallback: u32,
    freq_hz: u32,
    from: int,
) -> u32
    decreases bands.len() - from,
{
    if from < 0 || from >= bands.len() {
        fallback
    } else if freq_hz >= bands[from].0 {
        bands[from].1
    } else {
        cutoff_score_from(bands, fallback, freq_hz, from + 1)
    }
}

/// The table of the default scoring policy, highest frequency first.
pub open spec fn default_cutoff_bands() -> Seq<(u32, u32)> {
    seq![
        (21_000u32, 10_000u32),
        (20_000u32, 9_500u32),
        (18_000u32, 8_000u32),
        (16_500u32, 7_000u32),
        (15_000u32, 6_000u32),
        (13_000u32, 4_500u32),
        (11_500u32, 2_000u32),
    ]
}

/// How a detected cutoff, or its absence, becomes a score.
#[derive(Debug)]
pub struct ScoringConfig {
    /// Pairs `(freq_hz, score)`, highest frequency first.
    pub cutoff_bands: Vec<(u32, u32)>,
    /// Score of a cutoff below every entry of `cutoff_bands`.
    pub cutoff_fallback_score: u32,
    /// Scores without cutoff: reaching 21 kHz, reaching 20 kHz, otherwise.
    pub full_band_scores: (u32, u32, u32),
}

impl ScoringConfig {
    /// The score of a cutoff detected at `freq_hz`.
    pub open spec fn cutoff_score(&self, freq_hz: u32) -> u32 {
        cutoff_score_from(self.cutoff_bands@, self.cutoff_fallback_score, freq_hz, 0)
    }

    /// The score of a spectrum that extends to `max_freq_hz` without cutoff.
    pub open spec fn full_band_score(&self, max_freq_hz: u32) -> u32 {
        if max_freq_hz >= 21_000 {
            self.full_band_scores.0
        } else if max_freq_hz >= 20_000 {
            self.full_band_scores.1
        } else {
            self.full_band_scores.2
        }
    }

    /// Every score of the policy lies between 0 and 10.
    pub open spec fn scores_in_range(&self) -> bool {
        &&& forall|i: int|
            0 <= i < self.cutoff_bands@.len() ==> (#[trigger] self.cutoff_bands@[i]).1 <= MAX_SCORE
        &&& self.cutoff_fallback_score <= MAX_SCORE
        &&& self.full_band_scores.0 <= MAX_SCORE
        &&& self.full_band_scores.1 <= MAX_SCORE
        &&& self.full_band_scores.2 <= MAX_SCORE
    }

    /// The table runs from high frequencies to low ones, and its scores never
    /// rise on the way down.
    pub open spec fn bands_ordered(&self) -> bool {
        forall|i: int, j: int|
            0 <= i <= j < self.cutoff_bands@.len() ==> {
                &&& (#[trigger] self.cutoff_bands@[i]).0 >= (#[trigger] self.cutoff_bands@[j]).0
                &&& self.cutoff_bands@[i].1 >= self.cutoff_bands@[j].1
            }
    }

    /// Some entry of the table has a frequency that is not above `freq_hz`.
    pub open spec fn matches_band(&self, freq_hz: u32) -> bool {
        exists|i: int|
            0 <= i < self.cutoff_bands@.len() && freq_hz >= (#[trigger] self.cutoff_bands@[i]).0
    }

    /// The score of a cutoff detected at `freq_hz`: that of the first table
    /// entry whose frequency is not above it, else the fallback score.
    pub fn score_for_cutoff(&self, freq_hz: u32) -> (score: u32)
        ensures
            score == self.cutoff_score(freq_hz),
    {
        let mut i: usize = 0;
        while i < self.cutoff_bands.len()
            invariant
                i <= self.cutoff_bands.len(),
                self.cutoff_score(freq_hz) == cutoff_score_from(
                    self.cutoff_bands@,
                    self.cutoff_fallback_score,
                    freq_hz,
                    i as int,
                ),
            decreases self.cutoff_bands.len() - i,
        {
            let band = self.cutoff_bands[i];
            if freq_hz >= band.0 {
                return band.1;
            }
            i += 1;
        }
        self.cutoff_fallback_score
    }

    /// The score of a spectrum without cutoff that extends to `max_freq_hz`.
    pub fn score_for_full_band(&self, max_freq_hz: u32) -> (score: u32)
        ensures
            score == self.full_band_score(max_freq_hz),
    {
        if max_freq_hz >= 21_000 {
            self.full_band_scores.0
        } else if max_freq_hz >= 20_000 {
            self.full_band_scores.1
        } else {
            self.full_band_scores.2
        }
    }
}

impl Clone for ScoringConfig {
    fn clone(&self) -> (r: Self)
        ensures
            r.cutoff_bands@ == self.cutoff_bands@,
            r.cutoff_fallback_score == self.cutoff_fallback_score,
            r.full_band_scores == self.full_band_scores,
    {
        let mut bands: Vec<(u32, u32)> = Vec::new();
        let mut i: usize = 0;
        while i < self.cutoff_bands.len()
            invariant
                i <= self.cutoff_bands.len(),
                bands@ == self.cutoff_bands@.take(i as int),
            decreases self.cutoff_bands.len() - i,
        {
            let band = self.cutoff_bands[i];
            bands.push((band.0, band.1));
            assert(self.cutoff_bands@.take(i + 1) == self.cutoff_bands@.take(i as int).push(
                self.cutoff_bands@[i as int],
            ));
            i += 1;
        }
        assert(self.cutoff_bands@.take(self.cutoff_bands@.len() as int) == self.cutoff_bands@);
        ScoringConfig {
            cutoff_bands: bands,
            cutoff_fallback_score: self.cutoff_fallback_score,
            full_band_scores: (
                self.full_band_scores.0,
                self.full_band_scores.1,
                self.full_band_scores.2,
            ),
        }
    }
}

impl Default for ScoringConfig {
    fn default() -> (r: Self)
        ensures
            r.cutoff_bands@ == default_cutoff_bands(),
            r.cutoff_fallback_score == 4_000,
            r.full_band_scores == (10_000u32, 9_500u32, 9_000u32),
    {
        let mut bands: Vec<(u32, u32)> = Vec::new();
        bands.push((21_000, 10_000));
        bands.push((20_000, 9_500));
        bands.push((18_000, 8_000));
        bands.push((16_500, 7_000));
        bands.push((15_000, 6_000));
        bands.push((13_000, 4_500));
        bands.push((11_500, 2_000));
        assert(bands@ == default_cutoff_bands());
        ScoringConfig {
            cutoff_bands: bands,
            cutoff_fallback_score: 4_000,
            full_band_scores: (10_000, 9_500, 9_000),
        }
    }
}

/// Which cap a bitrate falls under.
pub enum BitrateBucket {
    /// The bitrate is unknown (zero or negative): no cap.
    Unknown,
    /// Below `very_low_bps_max`.
    VeryLow,
    /// Below `low_bps_max`.
    Low,
    /// Below `medium_bps_max`.
    Medium,
    /// Below `high_bps_max`.
    High,
    /// Below `lossy_bps_max`.
    Lossy,
    /// At or above `lossy_bps_max`: no cap.
    Uncapped,
}

/// Score caps by bitrate: a track of very low bitrate cannot keep a score
/// that only the shape of its spectrum earned.
#[derive(Debug, Clone, Copy, PartialEq, Eq, Structural)]
pub struct BitrateSafetyConfig {
    pub very_low_bps_max: i64,
    pub low_bps_max: i64,
    pub medium_bps_max: i64,
    pub high_bps_max: i64,
    pub lossy_bps_max: i64,
    pub very_low_score_cap: u32,
    pub low_score_cap: u32,
    pub medium_score_cap: u32,
    pub high_score_cap: u32,
    pub lossy_score_cap: u32,
}

/// The note appended to the assessment when the lowest cap lowers a score.
pub open spec fn very_low_note() -> Seq<char> {
    " (Bitrate muy bajo)"@
}

/// The note appended to the assessment when the second cap lowers a score.
pub open spec fn low_note() -> Seq<char> {
    " (Bitrate bajo)"@
}

impl BitrateSafetyConfig {
    /// The bucket of a bitrate: the first threshold that it lies below.
    pub open spec fn bucket(&self, bitrate_bps: i64) -> BitrateBucket {
        if bitrate_bps <= 0 {
            BitrateBucket::Unknown
        } else if bitrate_bps < self.very_low_bps_max {
            BitrateBucket::VeryLow
        } else if bitrate_bps < self.low_bps_max {
            BitrateBucket::Low
        } else if bitrate_bps < self.medium_bps_max {
            BitrateBucket::Medium
        } else if bitrate_bps < self.high_bps_max {
            BitrateBucket::High
        } else if bitrate_bps < self.lossy_bps_max {
            BitrateBucket::Lossy
        } else {
            BitrateBucket::Uncapped
        }
    }

    /// The cap that applies at a bitrate, if any.
    pub open spec fn cap_at(&self, bitrate_bps: i64) -> Option<u32> {
        match self.bucket(bitrate_bps) {
            BitrateBucket::Unknown => None,
            BitrateBucket::VeryLow => Some(self.very_low_score_cap),
            BitrateBucket::Low => Some(self.low_score_cap),
            BitrateBucket::Medium => Some(self.medium_score_cap),
            BitrateBucket::High => Some(self.high_score_cap),
            BitrateBucket::Lossy => Some(self.lossy_score_cap),
            BitrateBucket::Uncapped => None,
        }
    }

    /// The score after the cap of the bitrate: the smaller of the two.
    pub open spec fn capped(&self, bitrate_bps: i64, score: u32) -> u32 {
        match self.cap_at(bitrate_bps) {
            Some(cap) => if score > cap {
                cap
            } else {
                score
            },
            None => score,
        }
    }

    /// The note that the cap leaves on the assessment: one in the two lowest
    /// buckets when the score was lowered, none otherwise.
    pub open spec fn cap_note(&self, bitrate_bps: i64, score: u32) -> Seq<char> {
        match self.bucket(bitrate_bps) {
            BitrateBucket::VeryLow => if score > self.very_low_score_cap {
                very_low_note()
            } else {
                Seq::empty()
            },
            BitrateBucket::Low => if score > self.low_score_cap {
                low_note()
            } else {
                Seq::empty()
            },
            _ => Seq::empty(),
        }
    }

    /// Thresholds and caps both rise from bucket to bucket.
    pub open spec fn ordered(&self) -> bool {
        &&& self.very_low_bps_max <= self.low_bps_max <= self.medium_bps_max
            <= self.high_bps_max <= self.lossy_bps_max
        &&& self.very_low_score_cap <= self.low_score_cap <= self.medium_score_cap
            <= self.high_score_cap <= self.lossy_score_cap
    }

    /// Lowers `score` to the cap of the bitrate's bucket where it exceeds it,
    /// and notes on the assessment a lowering in the two lowest buckets. A
    /// bitrate of zero or less is unknown and changes nothing.
    pub fn apply_cap(&self, bitrate_bps: i64, score: &mut u32, assessment: &mut String)
        ensures
            *final(score) == self.capped(bitrate_bps, *old(score)),
            final(assessment)@ == old(assessment)@ + self.cap_note(bitrate_bps, *old(score)),
    {
        proof {
            assert(old(assessment)@ + Seq::<char>::empty() == old(assessment)@);
        }
        if bitrate_bps <= 0 {
            return ;
        }
        if bitrate_bps < self.very_low_bps_max {
            if *score > self.very_low_score_cap {
                *score = self.very_low_score_cap;
                assessment.append(" (Bitrate muy bajo)");
            }
        } else if bitrate_bps < self.low_bps_max {
            if *score > self.low_score_cap {
                *score = self.low_score_cap;
                assessment.append(" (Bitrate bajo)");
            }
        } else if bitrate_bps < self.medium_bps_max {
            if *score > self.medium_score_cap {
                *score = self.medium_score_cap;
            }
        } else if bitrate_bps < self.high_bps_max {
            if *score > self.high_score_cap {
                *score = self.high_score_cap;
            }
        } else if bitrate_bps < self.lossy_bps_max {
            if *score > self.lossy_score_cap {
                *score = self.lossy_score_cap;
            }
        }
    }
}

impl Default for BitrateSafetyConfig {
    fn default() -> (r: Self)
        ensures
            r == (BitrateSafetyConfig {
                very_low_bps_max: 80_000,
                low_bps_max: 128_000,
                medium_bps_max: 192_000,
                high_bps_max: 256_000,
                lossy_bps_max: 400_000,
                very_low_score_cap: 3_000,
                low_score_cap: 5_500,
                medium_score_cap: 7_500,
                high_score_cap: 8_500,
                lossy_score_cap: 9_000,
            }),
    {
        BitrateSafetyConfig {
            very_low_bps_max: 80_000,
            low_bps_max: 128_000,
            medium_bps_max: 192_000,
            high_bps_max: 256_000,
            lossy_bps_max: 400_000,
            very_low_score_cap: 3_000,
            low_score_cap: 5_500,
            medium_score_cap: 7_500,
            high_score_cap: 8_500,
            lossy_score_cap: 9_000,
        }
    }
}

/// The whole configuration of the spectral analysis.
#[derive(Debug)]
pub struct AnalysisConfig {
    /// Samples per FFT window, a power of two.
    pub fft_window_size: usize,
    /// Longest stretch of audio that is decoded, in thousandths of a second;
    /// zero or less lifts the limit.
    pub max_analysis_duration_secs: i64,
    pub noise: NoiseConfig,
    pub reverse_scan: ReverseScanConfig,
    pub scoring: ScoringConfig,
    pub bitrate_safety: BitrateSafetyConfig,
}

/// An analysis configuration as plain data.
pub struct AnalysisConfigView {
    pub fft_window_size: usize,
    pub max_analysis_duration_secs: i64,
    pub noise: NoiseConfig,
    pub reverse_scan: ReverseScanConfig,
    pub cutoff_bands: Seq<(u32, u32)>,
    pub cutoff_fallback_score: u32,
    pub full_band_scores: (u32, u32, u32),
    pub bitrate_safety: BitrateSafetyConfig,
}

impl AnalysisConfig {
    /// The configuration as plain data.
    pub open spec fn view(&self) -> AnalysisConfigView {
        AnalysisConfigView {
            fft_window_size: self.fft_window_size,
            max_analysis_duration_secs: self.max_analysis_duration_secs,
            noise: self.noise,
            reverse_scan: self.reverse_scan,
            cutoff_bands: self.scoring.cutoff_bands@,
            cutoff_fallback_score: self.scoring.cutoff_fallback_score,
            full_band_scores: self.scoring.full_band_scores,
            bitrate_safety: self.bitrate_safety,
        }
    }

    /// A builder that starts from the default configuration.
    pub fn builder() -> (b: AnalysisConfigBuilder)
        ensures
            b@ == default_view(),
    {
        AnalysisConfigBuilder::new()
    }
}

/// The default configuration as plain data.
pub open spec fn default_view() -> AnalysisConfigView {
    AnalysisConfigView {
        fft_window_size: 8192,
        max_analysis_duration_secs: 15_000,
        noise: NoiseConfig { base_floor_db: (-65_000i32) as i32, dynamic_margin_db: 70_000 },
        reverse_scan: ReverseScanConfig { band_width_hz: 1_000, margin_from_nyquist_hz: 1_500 },
        cutoff_bands: default_cutoff_bands(),
        cutoff_fallback_score: 4_000,
        full_band_scores: (10_000u32, 9_500u32, 9_000u32),
        bitrate_safety: BitrateSafetyConfig {
            very_low_bps_max: 80_000,
            low_bps_max: 128_000,
            medium_bps_max: 192_000,
            high_bps_max: 256_000,
            lossy_bps_max: 400_000,
            very_low_score_cap: 3_000,
            low_score_cap: 5_500,
            medium_score_cap: 7_500,
            high_score_cap: 8_500,
            lossy_score_cap: 9_000,
        },
    }
}

/// Builds an analysis configuration field by field, starting from the
/// default.
#[derive(Debug)]
pub struct AnalysisConfigBuilder {
    inner: AnalysisConfig,
}

impl AnalysisConfigBuilder {
    /// The configuration that `build` would return now.
    pub closed spec fn view(&self) -> AnalysisConfigView {
        self.inner@
    }

    /// A builder that starts from the default configuration.
    pub fn new() -> (b: Self)
        ensures
            b@ == default_view(),
    {
        AnalysisConfigBuilder { inner: AnalysisConfig::default() }
    }

    /// Sets the number of samples per FFT window.
    pub fn fft_window_size(self, size: usize) -> (b: Self)
        ensures
            b@ == (AnalysisConfigView { fft_window_size: size, ..self@ }),
    {
        let mut inner = self.inner;
        inner.fft_window_size = size;
        AnalysisConfigBuilder { inner }
    }

    /// Sets the longest stretch of audio that is decoded, in thousandths of
    /// a second.
    pub fn max_analysis_duration_secs(self, millis: i64) -> (b: Self)
        ensures
            b@ == (AnalysisConfigView { max_analysis_duration_secs: millis, ..self@ }),
    {
        let mut inner = self.inner;
        inner.max_analysis_duration_secs = millis;
        AnalysisConfigBuilder { inner }
    }

    /// Sets the base noise floor, in thousandths of a decibel.
    pub fn noise_floor_db(self, db: i32) -> (b: Self)
        ensures
            b@ == (AnalysisConfigView {
                noise: NoiseConfig { base_floor_db: db, ..self@.noise },
                ..self@
            }),
    {
        let mut inner = self.inner;
        inner.noise.base_floor_db = db;
        AnalysisConfigBuilder { inner }
    }

    /// Sets the dynamic noise margin, in thousandths of a decibel.
    pub fn dynamic_noise_margin_db(self, db: i32) -> (b: Self)
        ensures
            b@ == (AnalysisConfigView {
                noise: NoiseConfig { dynamic_margin_db: db, ..self@.noise },
                ..self@
            }),
    {
        let mut inner = self.inner;
        inner.noise.dynamic_margin_db = db;
        AnalysisConfigBuilder { inner }
    }

    /// Sets the width of the bands of the reverse scan, in hertz.
    pub fn reverse_scan_band_width_hz(self, hz: u32) -> (b: Self)
        ensures
            b@ == (AnalysisConfigView {
                reverse_scan: ReverseScanConfig { band_width_hz: hz, ..self@.reverse_scan },
                ..self@
            }),
    {
        let mut inner = self.inner;
        inner.reverse_scan.band_width_hz = hz;
        AnalysisConfigBuilder { inner }
    }

    /// Sets the margin from the Nyquist frequency beyond which a band is a
    /// cutoff, in hertz.
    pub fn margin_from_nyquist_hz(self, hz: u32) -> (b: Self)
        ensures
            b@ == (AnalysisConfigView {
                reverse_scan: ReverseScanConfig {
                    margin_from_nyquist_hz: hz,
                    ..self@.reverse_scan
                },
                ..self@
            }),
    {
        let mut inner = self.inner;
        inner.reverse_scan.margin_from_nyquist_hz = hz;
        AnalysisConfigBuilder { inner }
    }

    /// Replaces the scoring policy.
    pub fn scoring(self, scoring: ScoringConfig) -> (b: Self)
        ensures
            b@ == (AnalysisConfigView {
                cutoff_bands: scoring.cutoff_bands@,
                cutoff_fallback_score: scoring.cutoff_fallback_score,
                full_band_scores: scoring.full_band_scores,
                ..self@
            }),
    {
        let mut inner = self.inner;
        inner.scoring = scoring;
        AnalysisConfigBuilder { inner }
    }

    /// Replaces the bitrate caps.
    pub fn bitrate_safety(self, caps: BitrateSafetyConfig) -> (b: Self)
        ensures
            b@ == (AnalysisConfigView { bitrate_safety: caps, ..self@ }),
    {
        let mut inner = self.inner;
        inner.bitrate_safety = caps;
        AnalysisConfigBuilder { inner }
    }

    /// The configuration that was built.
    pub fn build(self) -> (cfg: AnalysisConfig)
        ensures
            cfg@ == self@,
    {
        self.inner
    }
}

impl Clone for AnalysisConfig {
    fn clone(&self) -> (r: Self)
        ensures
            r@ == self@,
    {
        AnalysisConfig {
            fft_window_size: self.fft_window_size,
            max_analysis_duration_secs: self.max_analysis_duration_secs,
            noise: self.noise,
            reverse_scan: self.reverse_scan,
            scoring: self.scoring.clone(),
            bitrate_safety: self.bitrate_safety,
        }
    }
}

impl Default for AnalysisConfig {
    fn default() -> (r: Self)
        ensures
            r@ == default_view(),
    {
        AnalysisConfig {
            fft_window_size: 8192,
            max_analysis_duration_secs: 15_000,
            noise: NoiseConfig::default(),
            reverse_scan: ReverseScanConfig::default(),
            scoring: ScoringConfig::default(),
            bitrate_safety: BitrateSafetyConfig::default(),
        }
    }
}

} // verus!
