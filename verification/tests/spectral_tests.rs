use gamus::analysis_config::{
    AnalysisConfig, BitrateSafetyConfig, NoiseConfig, ReverseScanConfig, ScoringConfig,
};
use gamus::errors::AnalysisError;
use gamus::quality::{AnalysisOutcome, QualityLevel};
use gamus::spectral::{
    analyze_spectrum, band_db, build_report, detect_cutoff, noise_floor, score_outcome,
};
use gamus::windowing::{known_bitrate, WindowCounter};

/// A spectrum of `bins` bins for `sample_rate` whose level is `loud` below
/// `cutoff_hz` and `quiet` from there on.
fn spectrum(bins: usize, sample_rate: u32, cutoff_hz: u32, loud: i32, quiet: i32) -> Vec<i32> {
    let mut s = Vec::new();
    for i in 0..bins {
        let start_hz = (i as u64) * (sample_rate as u64) / 2 / (bins as u64);
        s.push(if start_hz < cutoff_hz as u64 { loud } else { quiet });
    }
    s
}

#[test]
fn default_configuration_has_the_documented_values() {
    let cfg = AnalysisConfig::default();
    assert_eq!(cfg.fft_window_size, 8192);
    assert_eq!(cfg.max_analysis_duration_secs, 15_000);
    assert_eq!(cfg.noise, NoiseConfig { base_floor_db: -65_000, dynamic_margin_db: 70_000 });
    assert_eq!(
        cfg.reverse_scan,
        ReverseScanConfig { band_width_hz: 1_000, margin_from_nyquist_hz: 1_500 }
    );
    assert_eq!(
        cfg.scoring.cutoff_bands,
        vec![
            (21_000, 10_000),
            (20_000, 9_500),
            (18_000, 8_000),
            (16_500, 7_000),
            (15_000, 6_000),
            (13_000, 4_500),
            (11_500, 2_000)
        ]
    );
    assert_eq!(cfg.scoring.cutoff_fallback_score, 4_000);
    assert_eq!(cfg.scoring.full_band_scores, (10_000, 9_500, 9_000));
    let b = cfg.bitrate_safety;
    assert_eq!(
        (b.very_low_bps_max, b.low_bps_max, b.medium_bps_max, b.high_bps_max, b.lossy_bps_max),
        (80_000, 128_000, 192_000, 256_000, 400_000)
    );
    assert_eq!(
        (
            b.very_low_score_cap,
            b.low_score_cap,
            b.medium_score_cap,
            b.high_score_cap,
            b.lossy_score_cap
        ),
        (3_000, 5_500, 7_500, 8_500, 9_000)
    );
}

#[test]
fn cutoff_score_is_that_of_the_first_band_not_above() {
    let s = ScoringConfig::default();
    assert_eq!(s.score_for_cutoff(22_050), 10_000);
    assert_eq!(s.score_for_cutoff(21_000), 10_000);
    assert_eq!(s.score_for_cutoff(20_999), 9_500);
    assert_eq!(s.score_for_cutoff(20_000), 9_500);
    assert_eq!(s.score_for_cutoff(19_000), 8_000);
    assert_eq!(s.score_for_cutoff(18_000), 8_000);
    assert_eq!(s.score_for_cutoff(17_000), 7_000);
    assert_eq!(s.score_for_cutoff(16_000), 6_000);
    assert_eq!(s.score_for_cutoff(15_000), 6_000);
    assert_eq!(s.score_for_cutoff(14_000), 4_500);
    assert_eq!(s.score_for_cutoff(12_000), 2_000);
    assert_eq!(s.score_for_cutoff(11_500), 2_000);
    assert_eq!(s.score_for_cutoff(11_499), 4_000);
    assert_eq!(s.score_for_cutoff(0), 4_000);
}

#[test]
fn cutoff_score_of_an_empty_table_is_the_fallback() {
    let s = ScoringConfig {
        cutoff_bands: Vec::new(),
        cutoff_fallback_score: 1_234,
        full_band_scores: (3, 2, 1),
    };
    assert_eq!(s.score_for_cutoff(20_000), 1_234);
    assert_eq!(s.score_for_full_band(21_000), 3);
    assert_eq!(s.score_for_full_band(20_500), 2);
    assert_eq!(s.score_for_full_band(19_999), 1);
}

#[test]
fn full_band_score_has_three_steps() {
    let s = ScoringConfig::default();
    assert_eq!(s.score_for_full_band(22_000), 10_000);
    assert_eq!(s.score_for_full_band(21_000), 10_000);
    assert_eq!(s.score_for_full_band(20_999), 9_500);
    assert_eq!(s.score_for_full_band(20_000), 9_500);
    assert_eq!(s.score_for_full_band(19_999), 9_000);
    assert_eq!(s.score_for_full_band(0), 9_000);
}

#[test]
fn higher_cutoff_never_scores_lower_above_the_lowest_band() {
    let s = ScoringConfig::default();
    let mut last = s.score_for_cutoff(11_500);
    let mut f = 11_500;
    while f <= 24_000 {
        let score = s.score_for_cutoff(f);
        assert!(score >= last);
        assert!(score <= 10_000);
        last = score;
        f += 250;
    }
}

#[test]
fn bitrate_cap_lowers_and_annotates() {
    let caps = BitrateSafetyConfig::default();
    let mut score = 10_000;
    let mut text = String::from("x");
    caps.apply_cap(64_000, &mut score, &mut text);
    assert_eq!(score, 3_000);
    assert_eq!(text, "x (Bitrate muy bajo)");

    let mut score = 10_000;
    let mut text = String::from("x");
    caps.apply_cap(100_000, &mut score, &mut text);
    assert_eq!((score, text.as_str()), (5_500, "x (Bitrate bajo)"));

    let mut score = 10_000;
    let mut text = String::from("x");
    caps.apply_cap(128_000, &mut score, &mut text);
    assert_eq!((score, text.as_str()), (7_500, "x"));

    let mut score = 10_000;
    let mut text = String::from("x");
    caps.apply_cap(200_000, &mut score, &mut text);
    assert_eq!((score, text.as_str()), (8_500, "x"));

    let mut score = 10_000;
    let mut text = String::from("x");
    caps.apply_cap(320_000, &mut score, &mut text);
    assert_eq!((score, text.as_str()), (9_000, "x"));

    let mut score = 10_000;
    let mut text = String::from("x");
    caps.apply_cap(400_000, &mut score, &mut text);
    assert_eq!((score, text.as_str()), (10_000, "x"));
}

#[test]
fn bitrate_cap_never_raises() {
    let caps = BitrateSafetyConfig::default();
    let mut score = 2_000;
    let mut text = String::from("x");
    caps.apply_cap(64_000, &mut score, &mut text);
    assert_eq!((score, text.as_str()), (2_000, "x"));
    let mut score = 3_000;
    caps.apply_cap(79_999, &mut score, &mut text);
    assert_eq!((score, text.as_str()), (3_000, "x"));
}

#[test]
fn unknown_bitrate_is_not_capped() {
    let caps = BitrateSafetyConfig::default();
    for bps in [0i64, -1, i64::MIN] {
        let mut score = 10_000;
        let mut text = String::from("x");
        caps.apply_cap(bps, &mut score, &mut text);
        assert_eq!((score, text.as_str()), (10_000, "x"));
    }
}

#[test]
fn lower_bitrate_never_gives_a_higher_score() {
    let caps = BitrateSafetyConfig::default();
    for raw in [0u32, 2_000, 4_500, 7_000, 9_500, 10_000] {
        let mut last = 0;
        for bps in [1i64, 64_000, 80_000, 127_999, 128_000, 192_000, 255_999, 256_000, 399_999, 400_000, 900_000] {
            let mut score = raw;
            let mut text = String::new();
            caps.apply_cap(bps, &mut score, &mut text);
            assert!(score >= last);
            assert!(score <= raw);
            last = score;
        }
    }
}

#[test]
fn noise_floor_is_base_or_dynamic() {
    let noise = NoiseConfig::default();
    assert_eq!(noise_floor(&noise, &vec![]), -65_000);
    assert_eq!(noise_floor(&noise, &vec![-100_000, -90_000]), -65_000);
    assert_eq!(noise_floor(&noise, &vec![0, 10_000, -5_000]), -60_000);
    assert_eq!(noise_floor(&noise, &vec![5_000]), -65_000);
    assert_eq!(noise_floor(&noise, &vec![5_001]), -64_999);
}

#[test]
fn band_level_is_the_mean_of_its_bins() {
    // 10 bins up to 5000 Hz: bin i covers i*500 .. (i+1)*500.
    let s = vec![0, 1_000, 2_000, 3_000, 4_000, 5_000, 6_000, 7_000, 8_000, 9_000];
    assert_eq!(band_db(&s, 10_000, 0, 1_000), Some(500));
    assert_eq!(band_db(&s, 10_000, 1_000, 2_000), Some(2_500));
    assert_eq!(band_db(&s, 10_000, 4_000, 5_000), Some(8_500));
    assert_eq!(band_db(&s, 10_000, 4_500, 6_000), Some(9_000));
    assert_eq!(band_db(&s, 10_000, 5_000, 6_000), None);
    assert_eq!(band_db(&s, 10_000, 100, 200), None);
    assert_eq!(band_db(&s, 0, 0, 1_000), None);
    assert_eq!(band_db(&vec![], 10_000, 0, 1_000), None);
}

#[test]
fn band_level_rounds_down() {
    let s = vec![-1, -2, 0, 0];
    // bins 0 and 1: sum -3 over 2 bins.
    assert_eq!(band_db(&s, 8, 0, 2), Some(-2));
    let s = vec![1, 2, 0, 0];
    assert_eq!(band_db(&s, 8, 0, 2), Some(1));
}

#[test]
fn full_band_lossless_scores_perfect() {
    let cfg = AnalysisConfig::default();
    let s = spectrum(4096, 44_100, 30_000, -20_000, -120_000);
    let outcome = detect_cutoff(&cfg, &s, 44_100);
    assert_eq!(outcome, AnalysisOutcome::NoCutoffDetected { ref_db: -20_000, max_freq: 22_000 });
    let q = score_outcome(&cfg, outcome, Some(900_000));
    assert_eq!(q.quality_score, 10_000);
    assert_eq!(q.assessment, "Espectro completo");
    assert_eq!(q.report.level, QualityLevel::Perfect);
    assert_eq!(q.report.score, 10_000);
    assert_eq!(q.report.label, "Espectro completo");
    assert_eq!(q.report.summary, "Excelente respuesta en frecuencia.");
    assert_eq!(
        q.report.details.as_deref(),
        Some("La señal se extiende hasta los 22.0 kHz sin caídas significativas (Nivel final: -20.0 dB). Consistente con audio Lossless o alta calidad.")
    );
    assert_eq!(q.report.cutoff_freq_hz, None);
    assert_eq!(q.report.max_freq_hz, Some(22_000));
}

#[test]
fn sharp_cutoff_at_16_khz_is_medium() {
    let cfg = AnalysisConfig::default();
    let s = spectrum(4096, 44_100, 16_000, -20_000, -120_000);
    let q = analyze_spectrum(&cfg, 44_100, &s, Some(128_000));
    assert_eq!(
        q.outcome,
        AnalysisOutcome::CutoffDetected { freq: 16_000, ref_db: -20_000, cut_db: -65_000 }
    );
    assert_eq!(q.quality_score, 6_000);
    assert_eq!(q.assessment, "Corte espectral en 16.0 kHz");
    assert_eq!(q.report.level, QualityLevel::Medium);
    assert_eq!(q.report.summary, "Se detectó pérdida de frecuencias agudas.");
    assert_eq!(
        q.report.details.as_deref(),
        Some("La señal de audio cae abruptamente a partir de los 16.0 kHz (Nivel aprox: -20.0 dB). Esto es indicativo de compresión con pérdida (MP3/AAC).")
    );
    assert_eq!(q.report.cutoff_freq_hz, Some(16_000));
    assert_eq!(q.report.max_freq_hz, None);
}

#[test]
fn low_bitrate_cutoff_keeps_its_low_score() {
    let cfg = AnalysisConfig::default();
    let s = spectrum(4096, 44_100, 12_000, -20_000, -120_000);
    let q = analyze_spectrum(&cfg, 44_100, &s, Some(64_000));
    assert_eq!(
        q.outcome,
        AnalysisOutcome::CutoffDetected { freq: 12_000, ref_db: -20_000, cut_db: -65_000 }
    );
    assert_eq!(q.quality_score, 2_000);
    assert_eq!(q.assessment, "Corte espectral en 12.0 kHz");
    assert_eq!(q.report.level, QualityLevel::Low);
}

#[test]
fn low_bitrate_caps_a_high_raw_score() {
    let cfg = AnalysisConfig::default();
    let outcome = AnalysisOutcome::CutoffDetected { freq: 19_000, ref_db: -12_340, cut_db: -65_000 };
    let q = score_outcome(&cfg, outcome, Some(64_000));
    assert_eq!(q.quality_score, 3_000);
    assert_eq!(q.assessment, "Corte espectral en 19.0 kHz (Bitrate muy bajo)");
    assert_eq!(q.report.label, "Corte espectral en 19.0 kHz (Bitrate muy bajo)");
    assert_eq!(q.report.level, QualityLevel::Low);
    assert_eq!(
        q.report.details.as_deref(),
        Some("La señal de audio cae abruptamente a partir de los 19.0 kHz (Nivel aprox: -12.3 dB). Esto es indicativo de compresión con pérdida (MP3/AAC).")
    );
}

#[test]
fn silent_audio_is_inconclusive() {
    let cfg = AnalysisConfig::default();
    let s = vec![-200_000; 4096];
    let q = analyze_spectrum(&cfg, 44_100, &s, Some(1_411_000));
    assert_eq!(
        q.outcome,
        AnalysisOutcome::Inconclusive(
            "no high-frequency energy".to_string()
        )
    );
    assert_eq!(q.quality_score, 0);
    assert_eq!(
        q.assessment,
        "Error: no high-frequency energy"
    );
    assert_eq!(q.report.level, QualityLevel::Inconclusive);
    assert_eq!(q.report.score, 0);
    assert_eq!(q.report.label, "Error");
    assert_eq!(q.report.summary, "No se pudo analizar");
    assert_eq!(
        q.report.details.as_deref(),
        Some("no high-frequency energy")
    );
    assert_eq!(q.report.cutoff_freq_hz, None);
    assert_eq!(q.report.max_freq_hz, None);
}

#[test]
fn empty_spectrum_and_zero_rate_are_inconclusive() {
    let cfg = AnalysisConfig::default();
    assert!(matches!(detect_cutoff(&cfg, &vec![], 44_100), AnalysisOutcome::Inconclusive(_)));
    assert!(matches!(detect_cutoff(&cfg, &vec![0; 16], 0), AnalysisOutcome::Inconclusive(_)));
    assert!(matches!(detect_cutoff(&cfg, &vec![0; 16], 1_999), AnalysisOutcome::Inconclusive(_)));
}

#[test]
fn narrow_band_width_counts_as_100_hz() {
    let mut cfg = AnalysisConfig::default();
    cfg.reverse_scan.band_width_hz = 10;
    let s = spectrum(4096, 44_100, 16_050, -20_000, -120_000);
    let outcome = detect_cutoff(&cfg, &s, 44_100);
    assert!(matches!(outcome, AnalysisOutcome::CutoffDetected { freq: 16_100, .. }));
}

#[test]
fn dynamic_floor_follows_the_loudest_bin() {
    let cfg = AnalysisConfig::default();
    // Loud at 30 dB below 10 kHz, -45 dB above: the floor rises to -40 dB.
    let s = spectrum(4096, 44_100, 10_000, 30_000, -45_000);
    let outcome = detect_cutoff(&cfg, &s, 44_100);
    assert_eq!(
        outcome,
        AnalysisOutcome::CutoffDetected { freq: 10_000, ref_db: 30_000, cut_db: -40_000 }
    );
    let q = score_outcome(&cfg, outcome, None);
    assert_eq!(q.quality_score, 4_000);
    assert_eq!(q.assessment, "Corte espectral en 10.0 kHz");
}

#[test]
fn levels_follow_the_score() {
    let outcome = AnalysisOutcome::NoCutoffDetected { ref_db: 0, max_freq: 22_000 };
    assert_eq!(build_report(&outcome, 10_000, "a").level, QualityLevel::Perfect);
    assert_eq!(build_report(&outcome, 9_500, "a").level, QualityLevel::Perfect);
    assert_eq!(build_report(&outcome, 9_499, "a").level, QualityLevel::High);
    assert_eq!(build_report(&outcome, 8_000, "a").level, QualityLevel::High);
    assert_eq!(build_report(&outcome, 7_999, "a").level, QualityLevel::Medium);
    assert_eq!(build_report(&outcome, 5_500, "a").level, QualityLevel::Medium);
    assert_eq!(build_report(&outcome, 5_499, "a").level, QualityLevel::Low);
    assert_eq!(build_report(&outcome, 0, "a").level, QualityLevel::Low);
}

#[test]
fn report_rounds_frequencies_and_levels_to_tenths() {
    let outcome = AnalysisOutcome::CutoffDetected { freq: 16_049, ref_db: -49, cut_db: 0 };
    let r = build_report(&outcome, 6_000, "x");
    assert_eq!(
        r.details.as_deref(),
        Some("La señal de audio cae abruptamente a partir de los 16.0 kHz (Nivel aprox: -0.0 dB). Esto es indicativo de compresión con pérdida (MP3/AAC).")
    );
    let outcome = AnalysisOutcome::NoCutoffDetected { ref_db: 12_350, max_freq: 19_950 };
    let r = build_report(&outcome, 9_000, "x");
    assert_eq!(
        r.details.as_deref(),
        Some("La señal se extiende hasta los 20.0 kHz sin caídas significativas (Nivel final: 12.4 dB). Consistente con audio Lossless o alta calidad.")
    );
    let outcome = AnalysisOutcome::NoCutoffDetected { ref_db: -65_050, max_freq: 950 };
    let r = build_report(&outcome, 9_000, "x");
    assert_eq!(
        r.details.as_deref(),
        Some("La señal se extiende hasta los 1.0 kHz sin caídas significativas (Nivel final: -65.1 dB). Consistente con audio Lossless o alta calidad.")
    );
}

#[test]
fn window_counter_counts_windows() {
    let mut c = WindowCounter::begin(4, 44_100, 15_000).unwrap();
    assert_eq!(c.room(), 4);
    assert!(!c.push(3));
    assert_eq!(c.room(), 1);
    assert!(c.push(1));
    assert_eq!(c.window_count(), 1);
    assert_eq!(c.room(), 4);
    assert!(c.push(4));
    assert_eq!(c.window_count(), 2);
    assert!(!c.push(0));
    assert_eq!(c.finish().unwrap(), 2);
}

#[test]
fn window_counter_stops_at_the_sample_budget() {
    // 1.5 s at 1000 Hz: 1500 samples.
    let mut c = WindowCounter::begin(8, 1_000, 1_500).unwrap();
    assert!(!c.frame_done(1_000));
    assert!(!c.frame_done(499));
    assert!(c.frame_done(1));
    assert!(c.frame_done(0));
    let mut unlimited = WindowCounter::begin(8, 1_000, 0).unwrap();
    assert!(!unlimited.frame_done(usize::MAX));
    let mut negative = WindowCounter::begin(8, 1_000, -5).unwrap();
    assert!(!negative.frame_done(1_000_000));
}

#[test]
fn analysis_without_a_window_is_invalid() {
    let c = WindowCounter::begin(8192, 44_100, 15_000).unwrap();
    assert!(matches!(c.finish(), Err(AnalysisError::InvalidAudioFormat)));
    assert!(matches!(
        WindowCounter::begin(8192, 0, 15_000),
        Err(AnalysisError::InvalidAudioFormat)
    ));
    assert!(matches!(WindowCounter::begin(0, 44_100, 15_000), Err(AnalysisError::InvalidAudioFormat)));
    assert_eq!(
        AnalysisError::InvalidAudioFormat.to_string(),
        "Invalid audio format or empty stream"
    );
}

#[test]
fn decoder_bitrate_is_known_when_positive() {
    assert_eq!(known_bitrate(128_000), Some(128_000));
    assert_eq!(known_bitrate(0), None);
    assert_eq!(known_bitrate(-1), None);
}
