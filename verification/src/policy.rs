//! The interval policy: how long a runner waits before the next click.

use crate::config::{at_least_one, IntervalConfig, Mode};
use crate::entropy::RandomSource;
use vstd::prelude::*;

verus! {

/// Why the policy could not produce a delay.
#[derive(Clone, Copy, Debug, PartialEq, Eq, Structural)]
pub enum PolicyError {
    /// The jitter band is empty: its upper end lies below its lower end,
    /// the lower end taken as at least one millisecond.
    InvalidRange,
}

/// The delay of the regular mode: the fixed interval, but never less than a
/// millisecond.
pub open spec fn regular_delay_ms(fixed_interval_ms: u64) -> u64 {
    at_least_one(fixed_interval_ms)
}

/// The jitter band `[max(1, min_ms), max_ms]` holds at least one value.
pub open spec fn jitter_band_ok(min_ms: u64, max_ms: u64) -> bool {
    at_least_one(min_ms) <= max_ms
}

/// `base_ms` is a value of the jitter band and `extra_ms` a value of the
/// jitter width: the two draws of one jitter cycle.
pub open spec fn is_jitter_draw(
    min_ms: u64,
    max_ms: u64,
    jitter_ms: u64,
    base_ms: int,
    extra_ms: int,
) -> bool {
    at_least_one(min_ms) <= base_ms <= max_ms && 0 <= extra_ms <= jitter_ms
}

/// `delay_ms` is a delay the jitter mode can produce: a value of the band
/// plus an extra of at most `jitter_ms`.
pub open spec fn jitter_delay_possible(min_ms: u64, max_ms: u64, jitter_ms: u64, delay_ms: int) -> bool {
    exists|base_ms: int, extra_ms: int|
        #[trigger] is_jitter_draw(min_ms, max_ms, jitter_ms, base_ms, extra_ms) && delay_ms
            == base_ms + extra_ms
}

/// `outcome` is an answer the jitter mode may give: the error exactly when
/// the band is empty, and otherwise one of the possible delays.
pub open spec fn jitter_outcome_allowed(
    min_ms: u64,
    max_ms: u64,
    jitter_ms: u64,
    outcome: Result<u128, PolicyError>,
) -> bool {
    match outcome {
        Ok(delay_ms) => jitter_band_ok(min_ms, max_ms) && jitter_delay_possible(
            min_ms,
            max_ms,
            jitter_ms,
            delay_ms as int,
        ),
        Err(error) => !jitter_band_ok(min_ms, max_ms) && error == PolicyError::InvalidRange,
    }
}

/// `outcome` is an answer the policy may give for `mode` under `config`:
/// the error exactly when the policy fails, and otherwise one of the
/// possible delays.
pub open spec fn delay_outcome_allowed(
    config: IntervalConfig,
    mode: Mode,
    outcome: Result<u128, PolicyError>,
) -> bool {
    match mode {
        Mode::Regular => outcome == Ok::<u128, PolicyError>(
            regular_delay_ms(config.fixed_interval_ms) as u128,
        ),
        Mode::Jitter => jitter_outcome_allowed(
            config.min_ms,
            config.max_ms,
            config.jitter_ms,
            outcome,
        ),
    }
}

/// The delay of the regular mode.
pub fn regular_delay(fixed_interval_ms: u64) -> (delay_ms: u64)
    ensures
        delay_ms == regular_delay_ms(fixed_interval_ms),
        delay_ms >= 1,
{
    if fixed_interval_ms < 1 {
        1
    } else {
        fixed_interval_ms
    }
}

/// The ends of the jitter band, or `InvalidRange` when the band is empty.
pub fn jitter_band(min_ms: u64, max_ms: u64) -> (band: Result<(u64, u64), PolicyError>)
    ensures
        jitter_band_ok(min_ms, max_ms) ==> band == Ok::<(u64, u64), PolicyError>(
            (at_least_one(min_ms), max_ms),
        ),
        !jitter_band_ok(min_ms, max_ms) ==> band == Err::<(u64, u64), PolicyError>(
            PolicyError::InvalidRange,
        ),
{
    let low: u64 = if min_ms < 1 {
        1
    } else {
        min_ms
    };
    if max_ms < low {
        Err(PolicyError::InvalidRange)
    } else {
        Ok((low, max_ms))
    }
}

/// The delay made of a value drawn from the band and an extra drawn from
/// the jitter width. The sum is kept in 128 bits, so it is exact for every
/// pair of draws.
pub fn jitter_total(base_ms: u64, extra_ms: u64) -> (delay_ms: u128)
    ensures
        delay_ms == base_ms + extra_ms,
{
    base_ms as u128 + extra_ms as u128
}

/// Draws the delay of one jitter cycle: a value of `[max(1, min_ms),
/// max_ms]` plus a value of `[0, jitter_ms]`, each drawn uniformly.
///
/// Fails with `InvalidRange` exactly when the band is empty, and then
/// draws nothing. The draws come from `rand`, which panics where the
/// operating system refuses to seed or reseed its generator.
pub fn jitter_delay(source: &mut RandomSource, min_ms: u64, max_ms: u64, jitter_ms: u64) -> (outcome:
    Result<u128, PolicyError>)
    ensures
        jitter_outcome_allowed(min_ms, max_ms, jitter_ms, outcome),
        outcome is Ok <==> jitter_band_ok(min_ms, max_ms),
        outcome is Ok ==> at_least_one(min_ms) <= outcome->Ok_0 <= max_ms + jitter_ms,
{
    match jitter_band(min_ms, max_ms) {
        Err(error) => Err(error),
        Ok((low, high)) => {
            let base_ms: u64 = source.draw(low, high);
            let extra_ms: u64 = source.draw(0, jitter_ms);
            let delay_ms: u128 = jitter_total(base_ms, extra_ms);
            assert(jitter_delay_possible(min_ms, max_ms, jitter_ms, delay_ms as int)) by {
                assert(is_jitter_draw(min_ms, max_ms, jitter_ms, base_ms as int, extra_ms as int));
            }
            Ok(delay_ms)
        },
    }
}

/// The delay to wait before the next click, for `mode` under `config`.
///
/// The regular mode always answers, with the fixed interval raised to at
/// least a millisecond. The jitter mode draws a fresh delay at every call
/// and fails with `InvalidRange` exactly when its band is empty.
pub fn next_delay(source: &mut RandomSource, config: &IntervalConfig, mode: Mode) -> (outcome:
    Result<u128, PolicyError>)
    ensures
        delay_outcome_allowed(*config, mode, outcome),
{
    match mode {
        Mode::Regular => Ok(regular_delay(config.fixed_interval_ms) as u128),
        Mode::Jitter => jitter_delay(source, config.min_ms, config.max_ms, config.jitter_ms),
    }
}

/// Every delay the jitter mode can produce lies between the lower end of
/// the band, taken as at least one millisecond, and the upper end plus the
/// jitter width; and every value between these two is such a delay.
pub proof fn lemma_jitter_delay_bounds(min_ms: u64, max_ms: u64, jitter_ms: u64, delay_ms: int)
    ensures
        jitter_delay_possible(min_ms, max_ms, jitter_ms, delay_ms) <==> (jitter_band_ok(
            min_ms,
            max_ms,
        ) && at_least_one(min_ms) <= delay_ms <= max_ms + jitter_ms),
{
    let low = at_least_one(min_ms) as int;
    if jitter_band_ok(min_ms, max_ms) && low <= delay_ms <= max_ms + jitter_ms {
        let base = if delay_ms <= max_ms {
            delay_ms
        } else {
            max_ms as int
        };
        let extra = delay_ms - base;
        assert(is_jitter_draw(min_ms, max_ms, jitter_ms, base, extra));
    }
}

/// With a band of a single value and no jitter width, the only delay the
/// jitter mode can produce is that value.
pub proof fn lemma_jitter_delay_degenerate(interval_ms: u64, delay_ms: int)
    requires
        interval_ms >= 1,
        jitter_delay_possible(interval_ms, interval_ms, 0, delay_ms),
    ensures
        delay_ms == interval_ms,
{
}

/// Under a valid configuration the policy never fails, in either mode.
pub proof fn lemma_valid_config_always_answers(
    config: IntervalConfig,
    mode: Mode,
    outcome: Result<u128, PolicyError>,
)
    requires
        config.valid(),
        delay_outcome_allowed(config, mode, outcome),
    ensures
        outcome is Ok,
        outcome->Ok_0 >= 1,
{
    if mode == Mode::Jitter {
        lemma_jitter_delay_bounds(
            config.min_ms,
            config.max_ms,
            config.jitter_ms,
            outcome->Ok_0 as int,
        );
    }
}

} // verus!
