use audio_spectrum::{
    analyze, prepare, BandThresholds, Config, FrequencyAmplitudePair, FrequencyGroup,
    SpectrumError, SpectrumModel, UNIT,
};

fn pair(frequency: u64, amplitude: u64) -> FrequencyAmplitudePair {
    FrequencyAmplitudePair { frequency, amplitude }
}

fn flat(model: SpectrumModel) -> Vec<FrequencyAmplitudePair> {
    match model {
        SpectrumModel::Flat(pairs) => pairs,
        SpectrumModel::Banded(_) => panic!("the spectrum is banded"),
    }
}

fn classic_config() -> Config {
    let mut config = Config::new(60, 10_000);
    config.stride = 100;
    config.amplitude_boost = 10 * UNIT;
    config.clamp_max = Some(UNIT);
    config.band_thresholds = Some(BandThresholds { low: 14_000, high: 195_000 });
    config
}

fn classic_amplitudes() -> Vec<u64> {
    (0..44_100u64).map(|i| (i * 7919) % 1000).collect()
}

#[test]
fn flat_spectrum_of_a_small_transform() {
    let amplitudes: Vec<u64> = vec![0, 0, 10, 0, 40, 20, 0, 0];
    let model = analyze(&amplitudes, 8, &Config::new(2, 6)).unwrap();
    assert!(!model.is_banded());
    assert_eq!(model.band(FrequencyGroup::Low), None);
    assert_eq!(
        flat(model),
        vec![
            pair(0, 250_000),
            pair(250_000, 0),
            pair(500_000, 1_000_000),
            pair(750_000, 500_000),
            pair(1_000_000, 0),
        ]
    );
}

#[test]
fn banded_spectrum_of_a_small_transform() {
    let amplitudes: Vec<u64> = vec![0, 0, 10, 0, 40, 20, 0, 0];
    let mut config = Config::new(0, 7);
    config.band_thresholds = Some(BandThresholds { low: 330_000, high: 660_000 });
    let model = analyze(&amplitudes, 8, &config).unwrap();
    assert!(model.is_banded());
    assert_eq!(
        model.band(FrequencyGroup::Low),
        Some(&vec![pair(0, 0), pair(142_857, 0), pair(285_714, 250_000)])
    );
    assert_eq!(
        model.band(FrequencyGroup::Mid),
        Some(&vec![pair(428_571, 0), pair(571_428, 1_000_000)])
    );
    assert_eq!(
        model.band(FrequencyGroup::High),
        Some(&vec![pair(714_285, 500_000), pair(857_142, 0), pair(1_000_000, 0)])
    );
}

#[test]
fn classic_setting_gives_one_low_eighteen_mid_and_eighty_one_high_pairs() {
    let model = analyze(&classic_amplitudes(), 44_100, &classic_config()).unwrap();
    let groups = match model {
        SpectrumModel::Banded(groups) => groups,
        SpectrumModel::Flat(_) => panic!("the spectrum is flat"),
    };
    assert_eq!(groups.low, vec![pair(4_024, UNIT)]);
    assert_eq!(groups.mid.len(), 18);
    assert_eq!(groups.mid[0], pair(14_084, UNIT));
    assert_eq!(groups.mid[8], pair(94_567, 0));
    assert_eq!(groups.mid[17], pair(185_110, UNIT));
    assert_eq!(groups.high.len(), 81);
    assert_eq!(groups.high[0], pair(195_171, 0));
    assert_eq!(groups.high[1], pair(205_231, UNIT));
    assert_eq!(groups.high[80], pair(UNIT, 0));
}

#[test]
fn classic_setting_without_boost_keeps_the_ratios() {
    let mut config = classic_config();
    config.amplitude_boost = UNIT;
    config.clamp_max = None;
    config.band_thresholds = None;
    let pairs = flat(analyze(&classic_amplitudes(), 44_100, &config).unwrap());
    assert_eq!(pairs.len(), 100);
    assert_eq!(pairs[0], pair(4_024, UNIT));
    assert_eq!(pairs[1], pair(14_084, 888_888));
    assert_eq!(pairs[2], pair(24_144, 777_777));
    assert_eq!(pairs[3], pair(34_205, 666_666));
    assert_eq!(pairs[98], pair(989_939, 111_111));
    assert_eq!(pairs[99], pair(UNIT, 0));
}

#[test]
fn some_pair_is_exactly_one_and_none_is_above() {
    let amplitudes: Vec<u64> = (0..4096u64).map(|i| (i * i * 31 + 17 * i + 5) % 9973).collect();
    let mut config = Config::new(300, 3_400);
    config.stride = 2;
    let pairs = flat(analyze(&amplitudes, 48_000, &config).unwrap());
    assert!(pairs.iter().any(|p| p.amplitude == UNIT));
    assert!(pairs.iter().all(|p| p.amplitude <= UNIT));
    assert!(pairs.iter().all(|p| p.frequency <= UNIT));
    for w in pairs.windows(2) {
        assert!(w[0].frequency <= w[1].frequency);
    }
}

#[test]
fn ceiling_bounds_every_pair_and_the_strongest_reaches_it() {
    let amplitudes: Vec<u64> = (0..512u64).map(|i| (i * 37) % 101).collect();
    let mut config = Config::new(0, 24_000);
    config.amplitude_boost = 3 * UNIT;
    config.clamp_max = Some(2 * UNIT);
    let pairs = flat(analyze(&amplitudes, 48_000, &config).unwrap());
    assert!(pairs.iter().all(|p| p.amplitude <= 2 * UNIT));
    assert!(pairs.iter().any(|p| p.amplitude == 2 * UNIT));
    config.clamp_max = None;
    let pairs = flat(analyze(&amplitudes, 48_000, &config).unwrap());
    assert!(pairs.iter().all(|p| p.amplitude <= 3 * UNIT));
    assert!(pairs.iter().any(|p| p.amplitude == 3 * UNIT));
}

#[test]
fn band_sizes_add_up_to_the_retained_set() {
    let amplitudes = classic_amplitudes();
    let mut config = classic_config();
    config.stride = 7;
    let banded = analyze(&amplitudes, 44_100, &config).unwrap();
    let (low, mid, high) = match banded {
        SpectrumModel::Banded(groups) => (groups.low, groups.mid, groups.high),
        SpectrumModel::Flat(_) => panic!("the spectrum is flat"),
    };
    config.band_thresholds = None;
    let pairs = flat(analyze(&amplitudes, 44_100, &config).unwrap());
    assert_eq!(low.len() + mid.len() + high.len(), pairs.len());
    let mut joined = low.clone();
    joined.extend(mid.iter().copied());
    joined.extend(high.iter().copied());
    assert_eq!(joined, pairs);
}

#[test]
fn repeated_runs_give_identical_results() {
    let amplitudes = classic_amplitudes();
    let config = classic_config();
    let first = analyze(&amplitudes, 44_100, &config);
    let second = analyze(&amplitudes, 44_100, &config);
    assert_eq!(first, second);
    let failing = Config::new(45_000, 46_000);
    assert_eq!(analyze(&amplitudes, 44_100, &failing), analyze(&amplitudes, 44_100, &failing));
}

#[test]
fn window_without_bins_is_an_empty_result_set() {
    let amplitudes: Vec<u64> = vec![1; 1024];
    assert_eq!(
        analyze(&amplitudes, 44_100, &Config::new(50, 80)),
        Err(SpectrumError::EmptyResultSet)
    );
    assert_eq!(
        analyze(&amplitudes, 44_100, &Config::new(45_000, 46_000)),
        Err(SpectrumError::EmptyResultSet)
    );
}

#[test]
fn silent_window_is_an_empty_result_set() {
    let mut amplitudes: Vec<u64> = vec![0; 1024];
    amplitudes[10] = 5_000_000;
    amplitudes[1014] = 5_000_000;
    assert_eq!(
        analyze(&amplitudes, 44_100, &Config::new(21_000, 22_000)),
        Err(SpectrumError::EmptyResultSet)
    );
    amplitudes[500] = 1;
    let pairs = flat(analyze(&amplitudes, 44_100, &Config::new(21_000, 22_000)).unwrap());
    assert_eq!(pairs.len(), 23);
    assert_eq!(pairs[12].amplitude, UNIT);
}

#[test]
fn stride_that_skips_the_window_is_an_empty_result_set() {
    let amplitudes: Vec<u64> = vec![1; 1024];
    let mut config = Config::new(21_000, 22_000);
    config.stride = 64;
    assert_eq!(analyze(&amplitudes, 44_100, &config), Err(SpectrumError::EmptyResultSet));
}

#[test]
fn empty_transform_is_invalid_input() {
    assert_eq!(
        analyze(&Vec::new(), 44_100, &Config::new(20, 20_000)),
        Err(SpectrumError::InvalidInput)
    );
}

#[test]
fn zero_sample_rate_is_invalid_input() {
    assert_eq!(
        analyze(&vec![1, 2, 3], 0, &Config::new(20, 20_000)),
        Err(SpectrumError::InvalidInput)
    );
}

#[test]
fn invalid_options_are_invalid_configuration() {
    let amplitudes: Vec<u64> = vec![1, 2, 3, 4];
    assert_eq!(
        analyze(&amplitudes, 4, &Config::new(3, 1)),
        Err(SpectrumError::InvalidConfiguration)
    );
    let mut config = Config::new(0, 3);
    config.compression_gamma = 0;
    assert_eq!(analyze(&amplitudes, 4, &config), Err(SpectrumError::InvalidConfiguration));
    let mut config = Config::new(0, 3);
    config.band_thresholds = Some(BandThresholds { low: 700_000, high: 300_000 });
    assert_eq!(analyze(&amplitudes, 4, &config), Err(SpectrumError::InvalidConfiguration));
    let mut config = Config::new(0, 3);
    config.stride = 0;
    assert_eq!(analyze(&amplitudes, 4, &config), Err(SpectrumError::InvalidConfiguration));
}

#[test]
fn input_errors_come_before_configuration_errors() {
    assert_eq!(
        analyze(&Vec::new(), 44_100, &Config::new(3, 1)),
        Err(SpectrumError::InvalidInput)
    );
    assert_eq!(prepare(Vec::new(), 44_100, &Config::new(3, 1)), Err(SpectrumError::InvalidInput));
}

#[test]
fn configuration_errors_come_before_empty_results() {
    let amplitudes: Vec<u64> = vec![0; 16];
    let mut config = Config::new(0, 15);
    config.amplitude_boost = 0;
    assert_eq!(analyze(&amplitudes, 16, &config), Err(SpectrumError::InvalidConfiguration));
}

#[test]
fn samples_pass_unchanged_without_a_window() {
    let samples: Vec<i64> = vec![5, -6, 7, -8];
    assert_eq!(prepare(samples.clone(), 44_100, &Config::new(20, 20_000)), Ok(samples));
}

#[test]
fn samples_are_tapered_with_a_window() {
    let samples: Vec<i64> = vec![80, 80, 80, 80, 80];
    let mut config = Config::new(20, 20_000);
    config.window_enabled = true;
    assert_eq!(prepare(samples, 44_100, &config), Ok(vec![0, 40, 80, 40, 0]));
}

#[test]
fn preparation_checks_input_and_options() {
    let config = Config::new(20, 20_000);
    assert_eq!(prepare(Vec::new(), 44_100, &config), Err(SpectrumError::InvalidInput));
    assert_eq!(prepare(vec![1, 2], 0, &config), Err(SpectrumError::InvalidInput));
    assert_eq!(
        prepare(vec![1, 2], 44_100, &Config::new(20_000, 20)),
        Err(SpectrumError::InvalidConfiguration)
    );
}

#[test]
fn compressed_amplitudes_are_normalised_like_any_other() {
    let raw: Vec<u64> = vec![0, 100, 400, 900, 0, 0, 0, 0];
    let mut config = Config::new(0, 3);
    config.compression_gamma = 500_000;
    assert!(config.compresses());
    let gamma = config.compression_gamma as f64 / UNIT as f64;
    let compressed: Vec<u64> =
        raw.iter().map(|a| (*a as f64).powf(gamma).round() as u64).collect();
    assert_eq!(compressed, vec![0, 10, 20, 30, 0, 0, 0, 0]);
    let pairs = flat(analyze(&compressed, 8, &config).unwrap());
    assert_eq!(
        pairs,
        vec![pair(0, 0), pair(333_333, 333_333), pair(666_666, 666_666), pair(UNIT, UNIT)]
    );
    let uncompressed = flat(analyze(&raw, 8, &Config::new(0, 3)).unwrap());
    for k in 0..pairs.len() {
        assert!(pairs[k].amplitude >= uncompressed[k].amplitude);
    }
}
