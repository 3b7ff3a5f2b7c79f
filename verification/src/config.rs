//! Interval settings and the cadence mode.

use vstd::prelude::*;

verus! {

/// Default fixed interval of the regular mode, in milliseconds.
pub const DEFAULT_FIXED_INTERVAL_MS: u64 = 100;

/// Default lower end of the jitter band, in milliseconds.
pub const DEFAULT_MIN_MS: u64 = 100;

/// Default upper end of the jitter band, in milliseconds.
pub const DEFAULT_MAX_MS: u64 = 200;

/// Default width of the extra random delay, in milliseconds.
pub const DEFAULT_JITTER_MS: u64 = 50;

/// The cadence strategy a runner follows.
#[derive(Clone, Copy, Debug, PartialEq, Eq, Structural)]
pub enum Mode {
    /// One click every fixed interval.
    Regular,
    /// One click after a delay drawn anew for every cycle.
    Jitter,
}

impl Mode {
    /// The mode chosen by the "enable jitter" switch of the control surface.
    pub fn from_jitter_switch(jitter_enabled: bool) -> (mode: Mode)
        ensures
            mode == (if jitter_enabled { Mode::Jitter } else { Mode::Regular }),
    {
        if jitter_enabled {
            Mode::Jitter
        } else {
            Mode::Regular
        }
    }
}

/// The four numbers the control surface edits while the program runs.
///
/// The fields are plain data: any combination can be stored. The
/// combinations a well-behaved control surface produces are those for which
/// [`IntervalConfig::valid`] holds; the interval policy guards against the
/// others when it evaluates them.
#[derive(Clone, Copy, Debug, PartialEq, Eq, Structural)]
pub struct IntervalConfig {
    /// Interval of the regular mode, in milliseconds.
    pub fixed_interval_ms: u64,
    /// Lower end of the jitter band, in milliseconds.
    pub min_ms: u64,
    /// Upper end of the jitter band, in milliseconds.
    pub max_ms: u64,
    /// Largest extra delay added on top of the band, in milliseconds.
    pub jitter_ms: u64,
}

/// The larger of `value` and one: no interval is ever shorter than a
/// millisecond.
pub open spec fn at_least_one(value: u64) -> u64 {
    if value < 1 {
        1
    } else {
        value
    }
}

impl IntervalConfig {
    /// Both intervals are at least a millisecond and the jitter band is not
    /// empty.
    pub open spec fn valid(&self) -> bool {
        &&& self.fixed_interval_ms >= 1
        &&& self.min_ms >= 1
        &&& self.max_ms >= self.min_ms
    }

    /// What [`IntervalConfig::normalized`] returns: every field raised to
    /// the least value that makes the configuration valid.
    pub open spec fn normal_form(&self) -> IntervalConfig {
        IntervalConfig {
            fixed_interval_ms: at_least_one(self.fixed_interval_ms),
            min_ms: at_least_one(self.min_ms),
            max_ms: if self.max_ms < at_least_one(self.min_ms) {
                at_least_one(self.min_ms)
            } else {
                self.max_ms
            },
            jitter_ms: self.jitter_ms,
        }
    }

    /// Builds a configuration from the four numbers as given.
    pub fn new(fixed_interval_ms: u64, min_ms: u64, max_ms: u64, jitter_ms: u64) -> (config:
        IntervalConfig)
        ensures
            config == (IntervalConfig { fixed_interval_ms, min_ms, max_ms, jitter_ms }),
    {
        IntervalConfig { fixed_interval_ms, min_ms, max_ms, jitter_ms }
    }

    /// Tells whether the configuration is valid.
    pub fn is_valid(&self) -> (ok: bool)
        ensures
            ok == self.valid(),
    {
        self.fixed_interval_ms >= 1 && self.min_ms >= 1 && self.max_ms >= self.min_ms
    }

    /// Raises each field that is too small to the least value that makes
    /// the configuration valid, as a control surface does when it clamps an
    /// edited number to its range. A valid configuration is returned
    /// unchanged.
    pub fn normalized(&self) -> (config: IntervalConfig)
        ensures
            config == self.normal_form(),
            config.valid(),
            self.valid() ==> config == *self,
    {
        let fixed_interval_ms: u64 = if self.fixed_interval_ms < 1 {
            1
        } else {
            self.fixed_interval_ms
        };
        let min_ms: u64 = if self.min_ms < 1 {
            1
        } else {
            self.min_ms
        };
        let max_ms: u64 = if self.max_ms < min_ms {
            min_ms
        } else {
            self.max_ms
        };
        IntervalConfig { fixed_interval_ms, min_ms, max_ms, jitter_ms: self.jitter_ms }
    }
}

impl Default for IntervalConfig {
    /// The settings the program starts with: a regular interval of 100 ms
    /// and a jitter band of 100 ms to 200 ms with up to 50 ms added.
    fn default() -> (config: IntervalConfig)
        ensures
            config == (IntervalConfig {
                fixed_interval_ms: DEFAULT_FIXED_INTERVAL_MS,
                min_ms: DEFAULT_MIN_MS,
                max_ms: DEFAULT_MAX_MS,
                jitter_ms: DEFAULT_JITTER_MS,
            }),
            config.valid(),
    {
        IntervalConfig {
            fixed_interval_ms: DEFAULT_FIXED_INTERVAL_MS,
            min_ms: DEFAULT_MIN_MS,
            max_ms: DEFAULT_MAX_MS,
            jitter_ms: DEFAULT_JITTER_MS,
        }
    }
}

} // verus!
