//! Plain-value model of one battery reading and of the static configuration.

use vstd::prelude::*;

verus! {

/// The battery's charge direction as reported by the sensor.
#[derive(Clone, Copy, Debug, PartialEq, Eq, Structural)]
pub enum ChargeState {
    /// The battery is charging.
    Charging,
    /// The battery is discharging.
    Discharging,
    /// Any other state the sensor may report (full, empty, unknown).
    Other,
}

/// A battery charge level, held in hundredths of a percent so that the
/// sensor's fractional readings compare exactly against whole-percent
/// thresholds.
#[derive(Clone, Copy, Debug, PartialEq, Eq, Structural)]
pub struct Percentage {
    /// Hundredths of a percent, at most 10000 (that is, 100%).
    pub hundredths: u16,
}

impl Percentage {
    /// A charge level lies between 0% and 100%.
    pub open spec fn wf(self) -> bool {
        self.hundredths <= 10000
    }

    /// The charge rounded to the nearest whole percent, halves rounding up.
    pub open spec fn spec_rounded(self) -> int {
        (self.hundredths + 50) / 100
    }

    /// Builds a charge level from hundredths of a percent.
    pub fn new(hundredths: u16) -> (p: Self)
        requires
            hundredths <= 10000,
        ensures
            p.hundredths == hundredths,
            p.wf(),
    {
        Self { hundredths }
    }

    /// Builds a charge level from a whole percentage.
    pub fn from_whole(percent: u8) -> (p: Self)
        requires
            percent <= 100,
        ensures
            p.hundredths == percent * 100,
            p.wf(),
    {
        Self { hundredths: (percent as u16) * 100 }
    }

    /// The charge rounded to the nearest whole percent.
    pub fn rounded(&self) -> (r: u8)
        requires
            self.wf(),
        ensures
            r == self.spec_rounded(),
            r <= 100,
    {
        ((self.hundredths + 50) / 100) as u8
    }
}

/// One battery reading, produced fresh each tick.
#[derive(Clone, Copy, Debug, PartialEq, Eq, Structural)]
pub struct Sample {
    /// The charge direction.
    pub charge_state: ChargeState,
    /// The charge level.
    pub percentage: Percentage,
}

impl Sample {
    /// A reading is well formed when its charge level is.
    pub open spec fn wf(self) -> bool {
        self.percentage.wf()
    }
}

/// Static configuration, immutable for the process lifetime.
#[derive(Clone, Copy, Debug, PartialEq, Eq, Structural)]
pub struct Config {
    /// Percentage at or above which a charging battery alerts.
    pub high_threshold: u8,
    /// Percentage at or below which a discharging battery alerts.
    pub low_threshold: u8,
    /// Whether the high threshold is watched at all.
    pub high_enabled: bool,
    /// Whether the low threshold is watched at all.
    pub low_enabled: bool,
    /// Alerts emitted per session at most; at least one.
    pub max_attempts: u64,
}

impl Config {
    /// Thresholds are percentages and at least one alert is sent per session.
    pub open spec fn wf(self) -> bool {
        &&& self.high_threshold <= 100
        &&& self.low_threshold <= 100
        &&& self.max_attempts >= 1
    }

    /// Builds a configuration.
    pub fn new(
        high_threshold: u8,
        low_threshold: u8,
        high_enabled: bool,
        low_enabled: bool,
        max_attempts: u64,
    ) -> (c: Self)
        requires
            high_threshold <= 100,
            low_threshold <= 100,
            max_attempts >= 1,
        ensures
            c == (Config {
                high_threshold,
                low_threshold,
                high_enabled,
                low_enabled,
                max_attempts,
            }),
            c.wf(),
    {
        Self { high_threshold, low_threshold, high_enabled, low_enabled, max_attempts }
    }
}

} // verus!
