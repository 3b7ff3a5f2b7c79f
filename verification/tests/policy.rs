use autoclicker::config::{IntervalConfig, Mode};
use autoclicker::entropy::RandomSource;
use autoclicker::policy::{
    jitter_band, jitter_delay, jitter_total, next_delay, regular_delay, PolicyError,
};

#[test]
fn regular_delay_is_the_interval_but_at_least_one() {
    assert_eq!(regular_delay(0), 1);
    assert_eq!(regular_delay(1), 1);
    assert_eq!(regular_delay(50), 50);
    assert_eq!(regular_delay(u64::MAX), u64::MAX);
}

#[test]
fn jitter_band_raises_the_lower_end_to_one() {
    assert_eq!(jitter_band(0, 3), Ok((1, 3)));
    assert_eq!(jitter_band(100, 200), Ok((100, 200)));
    assert_eq!(jitter_band(7, 7), Ok((7, 7)));
}

#[test]
fn jitter_band_rejects_an_empty_band() {
    assert_eq!(jitter_band(10, 5), Err(PolicyError::InvalidRange));
    assert_eq!(jitter_band(0, 0), Err(PolicyError::InvalidRange));
    assert_eq!(jitter_band(1, 0), Err(PolicyError::InvalidRange));
}

#[test]
fn jitter_total_is_the_exact_sum() {
    assert_eq!(jitter_total(100, 37), 137);
    assert_eq!(jitter_total(0, 0), 0);
    assert_eq!(jitter_total(u64::MAX, u64::MAX), 36893488147419103230u128);
}

#[test]
fn jitter_delay_lies_between_floor_and_ceiling() {
    let mut source = RandomSource::new();
    for _ in 0..2000 {
        let delay = jitter_delay(&mut source, 100, 200, 50).unwrap();
        assert!(delay >= 100 && delay <= 250);
    }
    for _ in 0..2000 {
        let delay = jitter_delay(&mut source, 0, 3, 2).unwrap();
        assert!(delay >= 1 && delay <= 5);
    }
}

#[test]
fn jitter_delay_with_degenerate_band_is_exact() {
    let mut source = RandomSource::new();
    for _ in 0..1000 {
        assert_eq!(jitter_delay(&mut source, 100, 100, 0), Ok(100));
    }
}

#[test]
fn jitter_delay_rejects_an_inverted_band() {
    let mut source = RandomSource::new();
    assert_eq!(jitter_delay(&mut source, 10, 5, 0), Err(PolicyError::InvalidRange));
    assert_eq!(jitter_delay(&mut source, 10, 5, 1000), Err(PolicyError::InvalidRange));
    assert_eq!(jitter_delay(&mut source, 0, 0, 0), Err(PolicyError::InvalidRange));
}

#[test]
fn jitter_delay_covers_the_widest_settings() {
    let mut source = RandomSource::new();
    for _ in 0..200 {
        let delay = jitter_delay(&mut source, 0, u64::MAX, u64::MAX).unwrap();
        assert!(delay >= 1 && delay <= 36893488147419103230u128);
    }
    let delay = jitter_delay(&mut source, u64::MAX, u64::MAX, 0).unwrap();
    assert_eq!(delay, 18446744073709551615u128);
}

#[test]
fn jitter_delay_draws_more_than_one_value() {
    let mut source = RandomSource::new();
    let mut seen_above_low = false;
    let mut seen_below_high = false;
    let mut distinct = false;
    let first = jitter_delay(&mut source, 1, 1_000_000_000, 0).unwrap();
    for _ in 0..200 {
        let delay = jitter_delay(&mut source, 1, 1_000_000_000, 0).unwrap();
        if delay > 1 {
            seen_above_low = true;
        }
        if delay < 1_000_000_000 {
            seen_below_high = true;
        }
        if delay != first {
            distinct = true;
        }
    }
    assert!(seen_above_low);
    assert!(seen_below_high);
    assert!(distinct);
}

#[test]
fn jitter_extra_draws_more_than_one_value() {
    let mut source = RandomSource::new();
    let mut seen_extra = false;
    let mut seen_less_than_all = false;
    for _ in 0..200 {
        let delay = jitter_delay(&mut source, 5, 5, 1_000_000_000).unwrap();
        assert!(delay >= 5 && delay <= 1_000_000_005);
        if delay > 5 {
            seen_extra = true;
        }
        if delay < 1_000_000_005 {
            seen_less_than_all = true;
        }
    }
    assert!(seen_extra);
    assert!(seen_less_than_all);
}

#[test]
fn next_delay_of_the_regular_mode_is_the_fixed_interval() {
    let mut source = RandomSource::new();
    let config = IntervalConfig::default();
    assert_eq!(next_delay(&mut source, &config, Mode::Regular), Ok(100));
    let zero = IntervalConfig::new(0, 10, 5, 0);
    assert_eq!(next_delay(&mut source, &zero, Mode::Regular), Ok(1));
}

#[test]
fn next_delay_of_the_jitter_mode_follows_the_band() {
    let mut source = RandomSource::new();
    let config = IntervalConfig::default();
    for _ in 0..1000 {
        let delay = next_delay(&mut source, &config, Mode::Jitter).unwrap();
        assert!(delay >= 100 && delay <= 250);
    }
    let inverted = IntervalConfig::new(100, 10, 5, 0);
    assert_eq!(
        next_delay(&mut source, &inverted, Mode::Jitter),
        Err(PolicyError::InvalidRange)
    );
}
