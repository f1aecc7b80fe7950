//! The decisions of the spectral analyzer: where the spectrum is cut off, what
//! score that earns, and how the result is reported.
//!
//! The averaged spectrum arrives as one level per FFT bin, in thousandths of
//! a decibel; bin `i` of `n` starts at the frequency `i * nyquist / n`.

use vstd::prelude::*;
use vstd::arithmetic::div_mod::lemma_fundamental_div_mod;
use vstd::arithmetic::div_mod::lemma_fundamental_div_mod_converse;
use crate::analysis_config::AnalysisConfig;
use crate::analysis_config::AnalysisConfigView;
use crate::analysis_config::BitrateSafetyConfig;
use crate::analysis_config::cutoff_score_from;
use crate::analysis_config::default_cutoff_bands;
use crate::analysis_config::default_view;
use crate::analysis_config::MAX_SCORE;
use crate::analysis_config::NoiseConfig;
use crate::analysis_config::ReverseScanConfig;
use crate::analysis_config::ScoringConfig;
use crate::errors::AnalysisError;
use crate::quality::AnalysisOutcome;
use crate::quality::AudioQuality;
use crate::quality::AudioQualityReport;
use crate::quality::QualityLevel;
use crate::text::decimal_digits;
use crate::text::push_decimal;
use crate::windowing::sample_budget;
use crate::windowing::WindowCounter;

verus! {

/// The greatest level of a non-empty spectrum.
pub open spec fn spectrum_max(s: Seq<i32>) -> int
    decreases s.len(),
{
    if s.len() <= 1 {
        s[0] as int
    } else {
        let m = spectrum_max(s.drop_last());
        if s.last() > m {
            s.last() as int
        } else {
            m
        }
    }
}

/// The greatest level of a spectrum is one of its levels, and none is
/// greater.
pub proof fn lemma_spectrum_max(s: Seq<i32>)
    requires
        s.len() > 0,
    ensures
        exists|i: int| 0 <= i < s.len() && #[trigger] s[i] == spectrum_max(s),
        forall|i: int| 0 <= i < s.len() ==> #[trigger] s[i] <= spectrum_max(s),
    decreases s.len(),
{
    if s.len() > 1 {
        let before = s.drop_last();
        lemma_spectrum_max(before);
        let at = choose|i: int| 0 <= i < before.len() && #[trigger] before[i] == spectrum_max(before);
        assert(s[at] == before[at]);
        assert forall|i: int| 0 <= i < s.len() implies #[trigger] s[i] <= spectrum_max(s) by {
            if i < before.len() {
                assert(s[i] == before[i]);
            }
        }
        if s.last() > spectrum_max(before) {
            assert(s[s.len() - 1] == spectrum_max(s));
        } else {
            assert(s[at] == spectrum_max(s));
        }
    } else {
        assert(s[0] == spectrum_max(s));
    }
}

/// The noise floor: the base floor, raised to the dynamic floor where the
/// spectrum's maximum less the dynamic margin lies above it.
pub open spec fn noise_floor_of(noise: NoiseConfig, s: Seq<i32>) -> int {
    if s.len() == 0 {
        noise.base_floor_db as int
    } else {
        let dynamic = spectrum_max(s) - noise.dynamic_margin_db;
        if dynamic > noise.base_floor_db {
            dynamic
        } else {
            noise.base_floor_db as int
        }
    }
}

/// The sum of the levels of the bins `from..to`.
pub open spec fn level_sum(s: Seq<i32>, from: int, to: int) -> int
    decreases to - from,
{
    if from >= to {
        0
    } else {
        level_sum(s, from, to - 1) + s[to - 1]
    }
}

/// The bin that holds the frequency `freq_hz`, for `bins` bins up to the
/// Nyquist frequency `sample_rate / 2`.
pub open spec fn bin_of(freq_hz: int, bins: int, sample_rate: int) -> int {
    (2 * freq_hz * bins) / sample_rate
}

/// The bins of the band `start_hz..end_hz`, if the band starts below the
/// Nyquist frequency and holds at least one bin.
pub open spec fn band_bins(bins: int, sample_rate: int, start_hz: int, end_hz: int) -> Option<
    (int, int),
> {
    if 2 * start_hz >= sample_rate {
        None
    } else {
        let first = bin_of(start_hz, bins, sample_rate);
        let last = if 2 * end_hz >= sample_rate {
            bins
        } else {
            bin_of(end_hz, bins, sample_rate)
        };
        if first >= last {
            None
        } else {
            Some((first, last))
        }
    }
}

/// The mean level of the band `start_hz..end_hz`, rounded down to the
/// thousandth of a decibel.
pub open spec fn band_level(s: Seq<i32>, sample_rate: int, start_hz: int, end_hz: int) -> Option<
    int,
> {
    match band_bins(s.len() as int, sample_rate, start_hz, end_hz) {
        Some((first, last)) => Some(level_sum(s, first, last) / (last - first)),
        None => None,
    }
}

/// The width of one scanned band: the configured width, at least 100 Hz.
pub open spec fn step_of(scan: ReverseScanConfig) -> int {
    if scan.band_width_hz > 100 {
        scan.band_width_hz as int
    } else {
        100
    }
}

proof fn lemma_level_sum_bounds(s: Seq<i32>, from: int, to: int)
    requires
        0 <= from <= to <= s.len(),
    ensures
        (to - from) * (i32::MIN as int) <= level_sum(s, from, to) <= (to - from) * (
        i32::MAX as int),
    decreases to - from,
{
    if from < to {
        lemma_level_sum_bounds(s, from, to - 1);
        assert((to - from) * (i32::MIN as int) == (to - 1 - from) * (i32::MIN as int) + (
        i32::MIN as int)) by (nonlinear_arith);
        assert((to - from) * (i32::MAX as int) == (to - 1 - from) * (i32::MAX as int) + (
        i32::MAX as int)) by (nonlinear_arith);
    } else {
        assert((to - from) * (i32::MIN as int) == 0) by (nonlinear_arith)
            requires
                to - from == 0,
        ;
        assert((to - from) * (i32::MAX as int) == 0) by (nonlinear_arith)
            requires
                to - from == 0,
        ;
    }
}

/// The quotient of `a` by a positive `b`, rounded down.
fn floor_div(a: i128, b: u64) -> (q: i128)
    requires
        b > 0,
        -0x4000_0000_0000_0000_0000_0000_0000_0000 < a < 0x4000_0000_0000_0000_0000_0000_0000_0000,
    ensures
        q == a as int / b as int,
{
    let d: i128 = b as i128;
    if a >= 0 {
        a / d
    } else {
        let mag: i128 = -a;
        let m: i128 = mag + d - 1;
        let up: i128 = m / d;
        proof {
            let rem = m as int % d as int;
            lemma_fundamental_div_mod(m as int, d as int);
            assert(m as int == d as int * (m as int / d as int) + rem);
            assert(0 <= rem < d as int);
            assert(a as int == (-(up as int)) * d as int + (d as int - 1 - rem)) by (nonlinear_arith)
                requires
                    m as int == d as int * up as int + rem,
                    m as int == -(a as int) + d as int - 1,
            ;
            lemma_fundamental_div_mod_converse(
                a as int,
                d as int,
                -(up as int),
                d as int - 1 - rem,
            );
        }
        -up
    }
}

/// The greatest level of the spectrum, if it has any bin.
fn global_max(spectrum: &Vec<i32>) -> (r: Option<i32>)
    ensures
        spectrum@.len() == 0 ==> r is None,
        spectrum@.len() > 0 ==> r == Some(spectrum_max(spectrum@) as i32),
        spectrum@.len() > 0 ==> i32::MIN <= spectrum_max(spectrum@) <= i32::MAX,
{
    if spectrum.len() == 0 {
        return None;
    }
    let mut best: i32 = spectrum[0];
    let mut i: usize = 1;
    assert(spectrum@.take(1).len() == 1);
    while i < spectrum.len()
        invariant
            1 <= i <= spectrum.len(),
            best == spectrum_max(spectrum@.take(i as int)),
        decreases spectrum.len() - i,
    {
        assert(spectrum@.take(i + 1).drop_last() == spectrum@.take(i as int));
        if spectrum[i] > best {
            best = spectrum[i];
        }
        i += 1;
    }
    assert(spectrum@.take(spectrum@.len() as int) == spectrum@);
    Some(best)
}

/// The noise floor for a spectrum.
pub fn noise_floor(noise: &NoiseConfig, spectrum: &Vec<i32>) -> (floor: i64)
    ensures
        floor == noise_floor_of(*noise, spectrum@),
{
    let base: i64 = noise.base_floor_db as i64;
    match global_max(spectrum) {
        Some(max) => {
            let dynamic: i64 = max as i64 - noise.dynamic_margin_db as i64;
            if dynamic > base {
                dynamic
            } else {
                base
            }
        },
        None => base,
    }
}

/// The mean level of the bins that the band `start_hz..end_hz` covers,
/// rounded down to the thousandth of a decibel. `None` where the band starts
/// at or above the Nyquist frequency or covers no whole bin.
pub fn band_db(spectrum: &Vec<i32>, sample_rate: u32, start_hz: u32, end_hz: u32) -> (r: Option<
    i64,
>)
    ensures
        r matches Some(level) ==> band_level(
            spectrum@,
            sample_rate as int,
            start_hz as int,
            end_hz as int,
        ) == Some(level as int),
        r is None ==> band_level(spectrum@, sample_rate as int, start_hz as int, end_hz as int)
            is None,
{
    let bins = spectrum.len();
    if 2 * (start_hz as u64) >= sample_rate as u64 {
        return None;
    }
    let ghost first_spec = bin_of(start_hz as int, bins as int, sample_rate as int);
    let double_start: u128 = 2 * (start_hz as u128);
    assert(double_start * (bins as u128) <= 0x2_0000_0000 * 0x1_0000_0000_0000_0000)
        by (nonlinear_arith)
        requires
            0 <= double_start <= 0x2_0000_0000,
            0 <= bins <= 0x1_0000_0000_0000_0000,
    ;
    let numerator: u128 = double_start * (bins as u128);
    let first_wide: u128 = numerator / (sample_rate as u128);
    proof {
        assert(2 * start_hz as int * bins as int <= sample_rate as int * bins as int)
            by (nonlinear_arith)
            requires
                2 * start_hz as int <= sample_rate as int,
                bins as int >= 0,
        ;
        vstd::arithmetic::div_mod::lemma_div_is_ordered(
            2 * start_hz as int * bins as int,
            sample_rate as int * bins as int,
            sample_rate as int,
        );
        vstd::arithmetic::div_mod::lemma_div_multiples_vanish(bins as int, sample_rate as int);
        assert(sample_rate as int * bins as int == bins as int * sample_rate as int)
            by (nonlinear_arith);
    }
    let first: usize = first_wide as usize;
    let last: usize = if 2 * (end_hz as u64) >= sample_rate as u64 {
        bins
    } else {
        let double_end: u128 = 2 * (end_hz as u128);
        assert(double_end * (bins as u128) <= 0x2_0000_0000 * 0x1_0000_0000_0000_0000)
            by (nonlinear_arith)
            requires
                0 <= double_end <= 0x2_0000_0000,
                0 <= bins <= 0x1_0000_0000_0000_0000,
        ;
        let numerator_end: u128 = double_end * (bins as u128);
        proof {
            assert(2 * end_hz as int * bins as int <= sample_rate as int * bins as int)
                by (nonlinear_arith)
                requires
                    2 * end_hz as int <= sample_rate as int,
                    bins as int >= 0,
            ;
            vstd::arithmetic::div_mod::lemma_div_is_ordered(
                2 * end_hz as int * bins as int,
                sample_rate as int * bins as int,
                sample_rate as int,
            );
        }
        (numerator_end / (sample_rate as u128)) as usize
    };
    if first >= last {
        return None;
    }
    let mut sum: i128 = 0;
    let mut i: usize = first;
    while i < last
        invariant
            first <= i <= last <= bins,
            bins == spectrum.len(),
            sum == level_sum(spectrum@, first as int, i as int),
            (i - first) * (i32::MIN as int) <= sum <= (i - first) * (i32::MAX as int),
        decreases last - i,
    {
        proof {
            lemma_level_sum_bounds(spectrum@, first as int, i as int + 1);
            assert((i - first) * (i32::MAX as int) <= 0x1_0000_0000_0000_0000 * 0x8000_0000)
                by (nonlinear_arith)
                requires
                    0 <= i - first <= 0x1_0000_0000_0000_0000,
            ;
            assert((i - first) * (i32::MIN as int) >= 0x1_0000_0000_0000_0000 * (-0x8000_0000))
                by (nonlinear_arith)
                requires
                    0 <= i - first <= 0x1_0000_0000_0000_0000,
            ;
        }
        sum = sum + spectrum[i] as i128;
        i += 1;
    }
    let count: u64 = (last - first) as u64;
    proof {
        assert((last - first) * (i32::MAX as int) <= 0x1_0000_0000_0000_0000 * 0x8000_0000)
            by (nonlinear_arith)
            requires
                0 <= last - first <= 0x1_0000_0000_0000_0000,
        ;
        assert((last - first) * (i32::MIN as int) >= 0x1_0000_0000_0000_0000 * (-0x8000_0000))
            by (nonlinear_arith)
            requires
                0 <= last - first <= 0x1_0000_0000_0000_0000,
        ;
    }
    let mean = floor_div(sum, count);
    proof {
        let c = count as int;
        let q = sum as int / c;
        lemma_fundamental_div_mod(sum as int, c);
        assert(sum as int == c * q + sum as int % c);
        assert(q <= i32::MAX as int) by (nonlinear_arith)
            requires
                sum as int == c * q + sum as int % c,
                0 <= sum as int % c < c,
                sum as int <= c * (i32::MAX as int),
                c > 0,
        ;
        assert(q >= i32::MIN as int) by (nonlinear_arith)
            requires
                sum as int == c * q + sum as int % c,
                0 <= sum as int % c < c,
                sum as int >= c * (i32::MIN as int),
                c > 0,
        ;
    }
    Some(mean as i64)
}

/// Whether the band that ends at `freq_hz` carries energy above the noise
/// floor.
pub open spec fn is_loud(
    noise: NoiseConfig,
    scan: ReverseScanConfig,
    s: Seq<i32>,
    sample_rate: int,
    freq_hz: int,
) -> bool {
    match band_level(s, sample_rate, freq_hz - step_of(scan), freq_hz) {
        Some(level) => level > noise_floor_of(noise, s),
        None => false,
    }
}

/// The number `h` of the highest band among the bands `1..=k` that is loud
/// (band `h` ends at `h` times the band width), or 0 if none is.
pub open spec fn highest_loud_band(
    noise: NoiseConfig,
    scan: ReverseScanConfig,
    s: Seq<i32>,
    sample_rate: int,
    k: int,
) -> int
    decreases k,
{
    if k <= 0 {
        0
    } else if is_loud(noise, scan, s, sample_rate, k * step_of(scan)) {
        k
    } else {
        highest_loud_band(noise, scan, s, sample_rate, k - 1)
    }
}

/// The band that `highest_loud_band` names is loud, and no band above it up
/// to `k` is.
pub proof fn lemma_highest_loud_band(
    noise: NoiseConfig,
    scan: ReverseScanConfig,
    s: Seq<i32>,
    sample_rate: int,
    k: int,
)
    requires
        0 <= k,
    ensures
        0 <= highest_loud_band(noise, scan, s, sample_rate, k) <= k,
        highest_loud_band(noise, scan, s, sample_rate, k) > 0 ==> is_loud(
            noise,
            scan,
            s,
            sample_rate,
            highest_loud_band(noise, scan, s, sample_rate, k) * step_of(scan),
        ),
        forall|j: int|
            highest_loud_band(noise, scan, s, sample_rate, k) < j <= k ==> !is_loud(
                noise,
                scan,
                s,
                sample_rate,
                #[trigger] (j * step_of(scan)),
            ),
    decreases k,
{
    if k > 0 && !is_loud(noise, scan, s, sample_rate, k * step_of(scan)) {
        lemma_highest_loud_band(noise, scan, s, sample_rate, k - 1);
    }
}

/// The reason given when no band is loud.
pub open spec fn silent_reason() -> Seq<char> {
    "no high-frequency energy"@
}

/// What the reverse scan must report for a spectrum: the highest loud band
/// at or below the Nyquist frequency decides. Without one the outcome is
/// inconclusive; a band further from Nyquist than the margin is a cutoff;
/// any other is the extent of a full spectrum.
pub open spec fn is_detection_of(
    noise: NoiseConfig,
    scan: ReverseScanConfig,
    s: Seq<i32>,
    sample_rate: u32,
    r: AnalysisOutcome,
) -> bool {
    let step = step_of(scan);
    let k = highest_loud_band(noise, scan, s, sample_rate as int, sample_rate as int / (2 * step));
    let found = k * step;
    if k == 0 {
        r matches AnalysisOutcome::Inconclusive(reason) && reason@ == silent_reason()
    } else {
        match band_level(s, sample_rate as int, found - step, found) {
            Some(level) => if sample_rate - 2 * found > 2 * scan.margin_from_nyquist_hz {
                r matches AnalysisOutcome::CutoffDetected { freq, ref_db, cut_db } && freq == found
                    && ref_db == level && cut_db == noise_floor_of(noise, s)
            } else {
                r matches AnalysisOutcome::NoCutoffDetected { ref_db, max_freq } && max_freq
                    == found && ref_db == level
            },
            None => false,
        }
    }
}

/// Scans the spectrum downwards from the Nyquist frequency, band by band,
/// for the first band whose mean level exceeds the noise floor.
pub fn detect_cutoff(cfg: &AnalysisConfig, spectrum: &Vec<i32>, sample_rate: u32) -> (r:
    AnalysisOutcome)
    ensures
        is_detection_of(cfg.noise, cfg.reverse_scan, spectrum@, sample_rate, r),
{
    let floor = noise_floor(&cfg.noise, spectrum);
    let step: u32 = if cfg.reverse_scan.band_width_hz > 100 {
        cfg.reverse_scan.band_width_hz
    } else {
        100
    };
    let top: u32 = (sample_rate as u64 / (2 * step as u64)) as u32;
    let ghost kmax = sample_rate as int / (2 * step as int);
    proof {
        lemma_fundamental_div_mod(sample_rate as int, 2 * step as int);
        assert(kmax * step * 2 <= sample_rate) by (nonlinear_arith)
            requires
                sample_rate as int == (2 * step as int) * kmax + sample_rate as int % (2
                    * step as int),
                0 <= sample_rate as int % (2 * step as int),
        ;
        assert(0 <= kmax * step) by (nonlinear_arith)
            requires
                0 <= kmax,
                0 <= step,
        ;
    }
    let mut k: u32 = top;
    let mut f: u32 = top * step;
    while k >= 1
        invariant
            0 <= k <= top,
            top == kmax,
            kmax == sample_rate as int / (2 * step_of(cfg.reverse_scan)),
            f == k * step,
            step == step_of(cfg.reverse_scan),
            step >= 100,
            top * step * 2 <= sample_rate,
            floor == noise_floor_of(cfg.noise, spectrum@),
            highest_loud_band(cfg.noise, cfg.reverse_scan, spectrum@, sample_rate as int, kmax)
                == highest_loud_band(
                cfg.noise,
                cfg.reverse_scan,
                spectrum@,
                sample_rate as int,
                k as int,
            ),
        decreases k,
    {
        assert(k * step >= step) by (nonlinear_arith)
            requires
                k >= 1,
                step >= 0,
        ;
        assert((k - 1) * step == k * step - step) by (nonlinear_arith);
        match band_db(spectrum, sample_rate, f - step, f) {
            Some(db) => {
                if db > floor {
                    assert(k * step <= top * step) by (nonlinear_arith)
                        requires
                            k <= top,
                            step >= 0,
                    ;
                    assert(is_loud(
                        cfg.noise,
                        cfg.reverse_scan,
                        spectrum@,
                        sample_rate as int,
                        k * step,
                    ));
                    if sample_rate as u64 - 2 * (f as u64) > 2 * (
                    cfg.reverse_scan.margin_from_nyquist_hz as u64) {
                        return AnalysisOutcome::CutoffDetected {
                            freq: f,
                            ref_db: db,
                            cut_db: floor,
                        };
                    } else {
                        return AnalysisOutcome::NoCutoffDetected { ref_db: db, max_freq: f };
                    }
                }
            },
            None => {},
        }
        f = f - step;
        k = k - 1;
    }
    AnalysisOutcome::Inconclusive(
        String::from_str("no high-frequency energy"),
    )
}

/// A number of tenths written with one decimal, as in `16.0`.
pub open spec fn one_decimal(tenths: nat) -> Seq<char> {
    decimal_digits(tenths / 10) + seq!['.'] + decimal_digits(tenths % 10)
}

/// A frequency in hertz written in kilohertz with one decimal, rounded to
/// the nearest tenth (halves upwards).
pub open spec fn khz_text(freq_hz: u32) -> Seq<char> {
    one_decimal(((freq_hz + 50) / 100) as nat)
}

/// A level in thousandths of a decibel written in decibels with one decimal,
/// rounded to the nearest tenth (halves away from zero).
pub open spec fn db_text(level: i64) -> Seq<char> {
    if level < 0 {
        seq!['-'] + one_decimal(((-level + 50) / 100) as nat)
    } else {
        one_decimal(((level + 50) / 100) as nat)
    }
}

fn push_one_decimal(out: &mut String, tenths: u64)
    ensures
        final(out)@ == old(out)@ + one_decimal(tenths as nat),
{
    push_decimal(out, tenths / 10);
    out.push('.');
    push_decimal(out, tenths % 10);
    proof {
        let a = old(out)@;
        let b = decimal_digits((tenths / 10) as nat);
        let c = decimal_digits((tenths % 10) as nat);
        assert((a + b).push('.') + c == a + (b + seq!['.'] + c));
    }
}

fn push_khz(out: &mut String, freq_hz: u32)
    ensures
        final(out)@ == old(out)@ + khz_text(freq_hz),
{
    push_one_decimal(out, (freq_hz as u64 + 50) / 100);
}

fn push_db(out: &mut String, level: i64)
    ensures
        final(out)@ == old(out)@ + db_text(level),
{
    if level < 0 {
        let magnitude: u64 = (-(level + 1)) as u64 + 1;
        out.push('-');
        push_one_decimal(out, (magnitude / 100) + (magnitude % 100 + 50) / 100);
        proof {
            let a = old(out)@;
            let t = one_decimal(((-level + 50) / 100) as nat);
            assert((magnitude / 100) + (magnitude % 100 + 50) / 100 == (magnitude + 50) / 100);
            assert(a.push('-') + t == a + (seq!['-'] + t));
        }
    } else {
        let magnitude: u64 = level as u64;
        push_one_decimal(out, (magnitude / 100) + (magnitude % 100 + 50) / 100);
        assert((magnitude / 100) + (magnitude % 100 + 50) / 100 == (magnitude + 50) / 100);
    }
}

/// The level that belongs to a score: Perfect from 9.5, High from 8, Medium
/// from 5.5, Low below.
pub open spec fn level_for(score: u32) -> QualityLevel {
    if score >= 9_500 {
        QualityLevel::Perfect
    } else if score >= 8_000 {
        QualityLevel::High
    } else if score >= 5_500 {
        QualityLevel::Medium
    } else {
        QualityLevel::Low
    }
}

/// The explanation of a detected cutoff.
pub open spec fn cutoff_details(freq: u32, ref_db: i64) -> Seq<char> {
    "La señal de audio cae abruptamente a partir de los "@ + khz_text(freq)
        + " kHz (Nivel aprox: "@ + db_text(ref_db)
        + " dB). Esto es indicativo de compresión con pérdida (MP3/AAC)."@
}

/// The explanation of a spectrum without cutoff.
pub open spec fn full_band_details(max_freq: u32, ref_db: i64) -> Seq<char> {
    "La señal se extiende hasta los "@ + khz_text(max_freq)
        + " kHz sin caídas significativas (Nivel final: "@ + db_text(ref_db)
        + " dB). Consistente con audio Lossless o alta calidad."@
}

/// Whether `r` is the report of an outcome with its final score and
/// assessment. A decisive outcome carries the level of its score, the
/// assessment as label and exactly one of the two frequencies; an
/// inconclusive one has level Inconclusive and score 0.
pub open spec fn is_report_of(
    outcome: AnalysisOutcome,
    score: u32,
    assessment: Seq<char>,
    r: AudioQualityReport,
) -> bool {
    match outcome {
        AnalysisOutcome::CutoffDetected { freq, ref_db, cut_db } => {
            &&& r.level == level_for(score)
            &&& r.score == score
            &&& r.label@ == assessment
            &&& r.summary@ == "Se detectó pérdida de frecuencias agudas."@
            &&& r.details matches Some(d) && d@ == cutoff_details(freq, ref_db)
            &&& r.cutoff_freq_hz == Some(freq)
            &&& r.max_freq_hz is None
        },
        AnalysisOutcome::NoCutoffDetected { ref_db, max_freq } => {
            &&& r.level == level_for(score)
            &&& r.score == score
            &&& r.label@ == assessment
            &&& r.summary@ == "Excelente respuesta en frecuencia."@
            &&& r.details matches Some(d) && d@ == full_band_details(max_freq, ref_db)
            &&& r.cutoff_freq_hz is None
            &&& r.max_freq_hz == Some(max_freq)
        },
        AnalysisOutcome::Inconclusive(reason) => {
            &&& r.level == QualityLevel::Inconclusive
            &&& r.score == 0
            &&& r.label@ == "Error"@
            &&& r.summary@ == "No se pudo analizar"@
            &&& r.details matches Some(d) && d@ == reason@
            &&& r.cutoff_freq_hz is None
            &&& r.max_freq_hz is None
        },
    }
}

/// Builds the report of an outcome from its final score and assessment.
pub fn build_report(outcome: &AnalysisOutcome, score: u32, assessment: &str) -> (r:
    AudioQualityReport)
    ensures
        is_report_of(*outcome, score, assessment@, r),
{
    let level = if score >= 9_500 {
        QualityLevel::Perfect
    } else if score >= 8_000 {
        QualityLevel::High
    } else if score >= 5_500 {
        QualityLevel::Medium
    } else {
        QualityLevel::Low
    };
    match outcome {
        AnalysisOutcome::CutoffDetected { freq, ref_db, cut_db } => {
            let mut details = String::from_str(
                "La señal de audio cae abruptamente a partir de los ",
            );
            push_khz(&mut details, *freq);
            details.append(" kHz (Nivel aprox: ");
            push_db(&mut details, *ref_db);
            details.append(" dB). Esto es indicativo de compresión con pérdida (MP3/AAC).");
            AudioQualityReport {
                level,
                score,
                label: String::from_str(assessment),
                summary: String::from_str("Se detectó pérdida de frecuencias agudas."),
                details: Some(details),
                cutoff_freq_hz: Some(*freq),
                max_freq_hz: None,
            }
        },
        AnalysisOutcome::NoCutoffDetected { ref_db, max_freq } => {
            let mut details = String::from_str("La señal se extiende hasta los ");
            push_khz(&mut details, *max_freq);
            details.append(" kHz sin caídas significativas (Nivel final: ");
            push_db(&mut details, *ref_db);
            details.append(" dB). Consistente con audio Lossless o alta calidad.");
            AudioQualityReport {
                level,
                score,
                label: String::from_str(assessment),
                summary: String::from_str("Excelente respuesta en frecuencia."),
                details: Some(details),
                cutoff_freq_hz: None,
                max_freq_hz: Some(*max_freq),
            }
        },
        AnalysisOutcome::Inconclusive(reason) => AudioQualityReport {
            level: QualityLevel::Inconclusive,
            score: 0,
            label: String::from_str("Error"),
            summary: String::from_str("No se pudo analizar"),
            details: Some(reason.clone()),
            cutoff_freq_hz: None,
            max_freq_hz: None,
        },
    }
}

/// The score of an outcome before any bitrate cap: from the cutoff table,
/// from the full-band scores, or 0 when inconclusive.
pub open spec fn raw_score(scoring: ScoringConfig, outcome: AnalysisOutcome) -> u32 {
    match outcome {
        AnalysisOutcome::CutoffDetected { freq, ref_db, cut_db } => scoring.cutoff_score(freq),
        AnalysisOutcome::NoCutoffDetected { ref_db, max_freq } => scoring.full_band_score(
            max_freq,
        ),
        AnalysisOutcome::Inconclusive(reason) => 0,
    }
}

/// The assessment of an outcome before any bitrate note.
pub open spec fn raw_assessment(outcome: AnalysisOutcome) -> Seq<char> {
    match outcome {
        AnalysisOutcome::CutoffDetected { freq, ref_db, cut_db } => "Corte espectral en "@
            + khz_text(freq) + " kHz"@,
        AnalysisOutcome::NoCutoffDetected { ref_db, max_freq } => "Espectro completo"@,
        AnalysisOutcome::Inconclusive(reason) => "Error: "@ + reason@,
    }
}

/// The final score: the raw score, under the cap of the bitrate where the
/// bitrate is known.
pub open spec fn final_score(
    scoring: ScoringConfig,
    caps: BitrateSafetyConfig,
    outcome: AnalysisOutcome,
    bitrate: Option<i64>,
) -> u32 {
    match bitrate {
        Some(bps) => caps.capped(bps, raw_score(scoring, outcome)),
        None => raw_score(scoring, outcome),
    }
}

/// The final assessment: the raw assessment and the note of the cap, if the
/// cap left one.
pub open spec fn final_assessment(
    scoring: ScoringConfig,
    caps: BitrateSafetyConfig,
    outcome: AnalysisOutcome,
    bitrate: Option<i64>,
) -> Seq<char> {
    match bitrate {
        Some(bps) => raw_assessment(outcome) + caps.cap_note(bps, raw_score(scoring, outcome)),
        None => raw_assessment(outcome),
    }
}

/// A table whose scores lie between 0 and 10, with such a fallback, gives
/// only such scores.
pub proof fn lemma_cutoff_score_in_range(scoring: ScoringConfig, freq_hz: u32, from: int)
    requires
        scoring.scores_in_range(),
        0 <= from,
    ensures
        cutoff_score_from(scoring.cutoff_bands@, scoring.cutoff_fallback_score, freq_hz, from)
            <= MAX_SCORE,
    decreases scoring.cutoff_bands@.len() - from,
{
    if from < scoring.cutoff_bands@.len() && freq_hz < scoring.cutoff_bands@[from].0 {
        lemma_cutoff_score_in_range(scoring, freq_hz, from + 1);
    }
}

/// The final score lies between 0 and 10 whenever the scores of the policy
/// do, and is 0 for an inconclusive outcome.
pub proof fn lemma_final_score_in_range(
    scoring: ScoringConfig,
    caps: BitrateSafetyConfig,
    outcome: AnalysisOutcome,
    bitrate: Option<i64>,
)
    ensures
        scoring.scores_in_range() ==> final_score(scoring, caps, outcome, bitrate) <= MAX_SCORE,
        outcome is Inconclusive ==> final_score(scoring, caps, outcome, bitrate) == 0,
{
    if scoring.scores_in_range() {
        if let AnalysisOutcome::CutoffDetected { freq, ref_db, cut_db } = outcome {
            lemma_cutoff_score_in_range(scoring, freq, 0);
        }
    }
}

/// Scores an outcome, applies the bitrate cap where the bitrate is known,
/// and attaches the report.
pub fn score_outcome(cfg: &AnalysisConfig, outcome: AnalysisOutcome, bitrate: Option<i64>) -> (r:
    AudioQuality)
    ensures
        r.outcome == outcome,
        r.quality_score == final_score(cfg.scoring, cfg.bitrate_safety, outcome, bitrate),
        r.assessment@ == final_assessment(cfg.scoring, cfg.bitrate_safety, outcome, bitrate),
        is_report_of(outcome, r.quality_score, r.assessment@, r.report),
        cfg.scoring.scores_in_range() ==> r.quality_score <= MAX_SCORE,
        outcome is Inconclusive ==> r.quality_score == 0,
{
    let mut score: u32;
    let mut assessment: String;
    match &outcome {
        AnalysisOutcome::CutoffDetected { freq, ref_db, cut_db } => {
            score = cfg.scoring.score_for_cutoff(*freq);
            assessment = String::from_str("Corte espectral en ");
            push_khz(&mut assessment, *freq);
            assessment.append(" kHz");
        },
        AnalysisOutcome::NoCutoffDetected { ref_db, max_freq } => {
            score = cfg.scoring.score_for_full_band(*max_freq);
            assessment = String::from_str("Espectro completo");
        },
        AnalysisOutcome::Inconclusive(reason) => {
            score = 0;
            assessment = String::from_str("Error: ");
            assessment.append(reason.as_str());
        },
    }
    if let Some(bps) = bitrate {
        cfg.bitrate_safety.apply_cap(bps, &mut score, &mut assessment);
    }
    proof {
        lemma_final_score_in_range(cfg.scoring, cfg.bitrate_safety, outcome, bitrate);
    }
    let report = build_report(&outcome, score, assessment.as_str());
    AudioQuality { outcome, quality_score: score, assessment, report }
}

/// Detects the cutoff of an averaged spectrum and scores it: the second
/// half of an analysis, after the spectrum has been measured.
pub fn analyze_spectrum(
    cfg: &AnalysisConfig,
    sample_rate: u32,
    spectrum: &Vec<i32>,
    bitrate: Option<i64>,
) -> (r: AudioQuality)
    ensures
        is_detection_of(cfg.noise, cfg.reverse_scan, spectrum@, sample_rate, r.outcome),
        r.quality_score == final_score(cfg.scoring, cfg.bitrate_safety, r.outcome, bitrate),
        r.assessment@ == final_assessment(cfg.scoring, cfg.bitrate_safety, r.outcome, bitrate),
        is_report_of(r.outcome, r.quality_score, r.assessment@, r.report),
        cfg.scoring.scores_in_range() ==> r.quality_score <= MAX_SCORE,
        r.outcome is Inconclusive ==> r.quality_score == 0,
{
    let outcome = detect_cutoff(cfg, spectrum, sample_rate);
    score_outcome(cfg, outcome, bitrate)
}

proof fn lemma_cutoff_score_from_monotonic(scoring: ScoringConfig, f1: u32, f2: u32, from: int)
    requires
        scoring.bands_ordered(),
        f1 <= f2,
        0 <= from,
        exists|i: int|
            from <= i < scoring.cutoff_bands@.len() && f1 >= (
            #[trigger] scoring.cutoff_bands@[i]).0,
    ensures
        cutoff_score_from(scoring.cutoff_bands@, scoring.cutoff_fallback_score, f1, from)
            <= cutoff_score_from(scoring.cutoff_bands@, scoring.cutoff_fallback_score, f2, from),
    decreases scoring.cutoff_bands@.len() - from,
{
    let bands = scoring.cutoff_bands@;
    let fallback = scoring.cutoff_fallback_score;
    if from < bands.len() {
        if f1 >= bands[from].0 {
        } else if f2 >= bands[from].0 {
            // f2 takes this entry; f1 takes a later one, whose score is no higher
            lemma_cutoff_score_is_later_entry(scoring, f1, from + 1);
        } else {
            lemma_cutoff_score_from_monotonic(scoring, f1, f2, from + 1);
        }
    }
}

proof fn lemma_cutoff_score_is_later_entry(scoring: ScoringConfig, freq_hz: u32, from: int)
    requires
        0 <= from,
        exists|i: int|
            from <= i < scoring.cutoff_bands@.len() && freq_hz >= (
            #[trigger] scoring.cutoff_bands@[i]).0,
    ensures
        exists|i: int|
            from <= i < scoring.cutoff_bands@.len() && cutoff_score_from(
                scoring.cutoff_bands@,
                scoring.cutoff_fallback_score,
                freq_hz,
                from,
            ) == (#[trigger] scoring.cutoff_bands@[i]).1,
    decreases scoring.cutoff_bands@.len() - from,
{
    let bands = scoring.cutoff_bands@;
    if from < bands.len() {
        if freq_hz >= bands[from].0 {
            assert(cutoff_score_from(bands, scoring.cutoff_fallback_score, freq_hz, from)
                == bands[from].1);
        } else {
            lemma_cutoff_score_is_later_entry(scoring, freq_hz, from + 1);
        }
    }
}

/// Cutoff monotonicity: under one ordered table a higher cutoff frequency
/// never scores lower, as long as the lower frequency is met by an entry of
/// the table. A frequency below every entry takes the fallback score, which
/// the policy may set above the scores of its low entries; for such a
/// frequency the law holds where the fallback does not exceed the score of
/// the higher frequency.
pub proof fn lemma_cutoff_score_monotonic(scoring: ScoringConfig, f1: u32, f2: u32)
    requires
        scoring.bands_ordered(),
        f1 <= f2,
        scoring.matches_band(f1) || scoring.cutoff_fallback_score <= scoring.cutoff_score(f2),
    ensures
        scoring.cutoff_score(f1) <= scoring.cutoff_score(f2),
{
    if scoring.matches_band(f1) {
        lemma_cutoff_score_from_monotonic(scoring, f1, f2, 0);
    } else {
        lemma_cutoff_score_unmatched(scoring, f1, 0);
    }
}

proof fn lemma_cutoff_score_unmatched(scoring: ScoringConfig, freq_hz: u32, from: int)
    requires
        !scoring.matches_band(freq_hz),
        0 <= from,
    ensures
        cutoff_score_from(scoring.cutoff_bands@, scoring.cutoff_fallback_score, freq_hz, from)
            == scoring.cutoff_fallback_score,
    decreases scoring.cutoff_bands@.len() - from,
{
    if from < scoring.cutoff_bands@.len() {
        assert(freq_hz < scoring.cutoff_bands@[from].0);
        lemma_cutoff_score_unmatched(scoring, freq_hz, from + 1);
    }
}

/// The scores of the default table, and where it is monotonic: everywhere
/// but across its lowest entry, where a cutoff under 11.5 kHz takes the
/// fallback 4.0 and one from 11.5 kHz to under 13 kHz takes 2.0.
pub proof fn lemma_default_cutoff_scores(scoring: ScoringConfig, f1: u32, f2: u32)
    requires
        scoring.cutoff_bands@ == default_cutoff_bands(),
        scoring.cutoff_fallback_score == 4_000,
        f1 <= f2,
    ensures
        scoring.cutoff_score(f1) == if f1 >= 21_000 {
            10_000u32
        } else if f1 >= 20_000 {
            9_500u32
        } else if f1 >= 18_000 {
            8_000u32
        } else if f1 >= 16_500 {
            7_000u32
        } else if f1 >= 15_000 {
            6_000u32
        } else if f1 >= 13_000 {
            4_500u32
        } else if f1 >= 11_500 {
            2_000u32
        } else {
            4_000u32
        },
        !(f1 < 11_500 && 11_500 <= f2 < 13_000) ==> scoring.cutoff_score(f1)
            <= scoring.cutoff_score(f2),
        f1 < 11_500 && 11_500 <= f2 < 13_000 ==> scoring.cutoff_score(f1) > scoring.cutoff_score(
            f2,
        ),
{
    reveal_with_fuel(cutoff_score_from, 9);
}

/// A cap only lowers: the capped score never exceeds the score.
pub proof fn lemma_cap_only_lowers(caps: BitrateSafetyConfig, bitrate_bps: i64, score: u32)
    ensures
        caps.capped(bitrate_bps, score) <= score,
{
}

/// Bitrate cap monotonicity: of two bitrates the lower never leaves the
/// higher final score, under caps that rise with their thresholds. A
/// bitrate of zero or less is unknown and not capped at all: beside a known
/// bitrate it is left out where the cap of the known one lowers the score.
pub proof fn lemma_cap_monotonic(caps: BitrateSafetyConfig, b1: i64, b2: i64, score: u32)
    requires
        caps.ordered(),
        b1 <= b2,
        b1 > 0 || caps.capped(b2, score) == score,
    ensures
        caps.capped(b1, score) <= caps.capped(b2, score),
{
}

/// Bitrate cap monotonicity of the final score of an outcome: of two known
/// bitrates the lower never gives the higher final score.
pub proof fn lemma_final_score_monotonic(
    scoring: ScoringConfig,
    caps: BitrateSafetyConfig,
    outcome: AnalysisOutcome,
    b1: i64,
    b2: i64,
)
    requires
        caps.ordered(),
        0 < b1 <= b2,
    ensures
        final_score(scoring, caps, outcome, Some(b1)) <= final_score(
            scoring,
            caps,
            outcome,
            Some(b2),
        ),
{
}

/// The analyzer of one file, with its configuration. The spectrum itself is
/// measured by the caller, window by window as the analyzer's counter tells;
/// the analyzer decides what the spectrum means.
#[derive(Debug)]
pub struct SpectralAnalyzer {
    config: AnalysisConfig,
}

impl SpectralAnalyzer {
    /// The configuration of the analyzer as plain data.
    pub closed spec fn view(&self) -> AnalysisConfigView {
        self.config@
    }

    /// The configuration of the analyzer.
    pub closed spec fn spec_config(&self) -> AnalysisConfig {
        self.config
    }

    /// An analyzer with the default configuration.
    pub fn new() -> (analyzer: Self)
        ensures
            analyzer@ == default_view(),
    {
        SpectralAnalyzer::new_with_config(AnalysisConfig::default())
    }

    /// An analyzer with the given configuration.
    pub fn new_with_config(config: AnalysisConfig) -> (analyzer: Self)
        ensures
            analyzer.spec_config() == config,
            analyzer@ == config@,
    {
        SpectralAnalyzer { config }
    }

    /// The configuration of the analyzer.
    pub fn config(&self) -> (cfg: &AnalysisConfig)
        ensures
            *cfg == self.spec_config(),
    {
        &self.config
    }

    /// Starts counting the samples of a stream of the given rate into
    /// windows of the configured size, under the configured limit.
    pub fn count_windows(&self, sample_rate: u32) -> (r: Result<WindowCounter, AnalysisError>)
        ensures
            (sample_rate == 0 || self@.fft_window_size == 0) <==> r is Err,
            r matches Err(e) ==> e is InvalidAudioFormat,
            r matches Ok(c) ==> {
                &&& c.window_size() == self@.fft_window_size
                &&& c.buffered() == 0
                &&& c.windows() == 0
                &&& c.decoded() == 0
                &&& c.budget() == sample_budget(self@.max_analysis_duration_secs, sample_rate)
            },
    {
        WindowCounter::begin(
            self.config.fft_window_size,
            sample_rate,
            self.config.max_analysis_duration_secs,
        )
    }

    /// Analyses a file from its measured spectrum: a failed measurement is
    /// the failure of the analysis; a spectrum is scanned for its cutoff and
    /// scored.
    pub fn analyze_file(
        &self,
        sample_rate: u32,
        measured: Result<Vec<i32>, AnalysisError>,
        bitrate: Option<i64>,
    ) -> (r: Result<AudioQuality, AnalysisError>)
        ensures
            match measured {
                Err(e) => r == Err::<AudioQuality, AnalysisError>(e),
                Ok(spectrum) => r matches Ok(q) && {
                    let cfg = self.spec_config();
                    &&& is_detection_of(
                        cfg.noise,
                        cfg.reverse_scan,
                        spectrum@,
                        sample_rate,
                        q.outcome,
                    )
                    &&& q.quality_score == final_score(
                        cfg.scoring,
                        cfg.bitrate_safety,
                        q.outcome,
                        bitrate,
                    )
                    &&& q.assessment@ == final_assessment(
                        cfg.scoring,
                        cfg.bitrate_safety,
                        q.outcome,
                        bitrate,
                    )
                    &&& is_report_of(q.outcome, q.quality_score, q.assessment@, q.report)
                    &&& cfg.scoring.scores_in_range() ==> q.quality_score <= MAX_SCORE
                    &&& q.outcome is Inconclusive ==> q.quality_score == 0
                },
            },
    {
        match measured {
            Err(e) => Err(e),
            Ok(spectrum) => Ok(analyze_spectrum(&self.config, sample_rate, &spectrum, bitrate)),
        }
    }
}

} // verus!
