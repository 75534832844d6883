//! Configuration of the control engine.
//!
//! Sensor averages are classified against three ascending half-open bands
//! (`low`, `ideal`, `high`). Temperatures are hundredths of a degree Celsius
//! and relative humidities hundredths of a percent, so a band such as
//! 20.0..25.0 degrees is written `2000..2500`. Durations are whole seconds.
//! Validation checks the band ordering that every controller relies on:
//! `low` below `ideal` below `high`, with no overlap.

use vstd::prelude::*;
use crate::error::AtmosError;
use vstd::string::StringExecFns;

verus! {

/// No configured duration (cooldown, pulse length, interval, tick period)
/// may exceed one hundred years of seconds; this keeps every instant
/// computed by the engine far away from the integer limits.
pub const MAX_DURATION_SECONDS: u64 = 3_153_600_000;

/// Latest instant the engine will work with: the last second of year 9999,
/// as seconds since the Unix epoch.
pub const MAX_CONTROL_TIMESTAMP: u64 = 253_402_300_799;

/// A half-open interval `start..end` of scaled sensor values.
#[derive(Clone, Copy, Debug, PartialEq, Eq, Structural)]
pub struct Band {
    pub start: i64,
    pub end: i64,
}

impl Band {
    /// Whether `v` lies in the band: at or above `start` and strictly
    /// below `end`.
    pub open spec fn spec_contains(&self, v: i64) -> bool {
        self.start <= v < self.end
    }

    /// Whether `v` lies in the band.
    pub fn contains(&self, v: i64) -> (r: bool)
        ensures
            r == self.spec_contains(v),
    {
        self.start <= v && v < self.end
    }
}

/// Temperature bands and the fridge's minimum dwell time.
#[derive(Clone, Copy, Debug, PartialEq, Eq, Structural)]
pub struct TemperatureSettings {
    pub low_range_start: i64,
    pub low_range_end: i64,
    pub high_range_start: i64,
    pub high_range_end: i64,
    pub ideal_range_start: i64,
    pub ideal_range_end: i64,
    pub fridge_cooldown_duration: u64,
}

impl TemperatureSettings {
    pub open spec fn spec_low_range(&self) -> Band {
        Band { start: self.low_range_start, end: self.low_range_end }
    }

    pub open spec fn spec_high_range(&self) -> Band {
        Band { start: self.high_range_start, end: self.high_range_end }
    }

    pub open spec fn spec_ideal_range(&self) -> Band {
        Band { start: self.ideal_range_start, end: self.ideal_range_end }
    }

    pub fn low_range(&self) -> (r: Band)
        ensures
            r == self.spec_low_range(),
    {
        Band { start: self.low_range_start, end: self.low_range_end }
    }

    pub fn high_range(&self) -> (r: Band)
        ensures
            r == self.spec_high_range(),
    {
        Band { start: self.high_range_start, end: self.high_range_end }
    }

    pub fn ideal_range(&self) -> (r: Band)
        ensures
            r == self.spec_ideal_range(),
    {
        Band { start: self.ideal_range_start, end: self.ideal_range_end }
    }

    /// The band ordering every controller relies on: `low` at or below its
    /// own end, strictly below `ideal`, which is strictly below `high`.
    pub open spec fn bands_ordered(&self) -> bool {
        &&& self.low_range_start <= self.low_range_end
        &&& self.low_range_end < self.ideal_range_start
        &&& self.ideal_range_start <= self.ideal_range_end
        &&& self.ideal_range_end < self.high_range_start
        &&& self.high_range_start <= self.high_range_end
    }

    /// The cooldown stays below the global duration cap, so instants
    /// derived from it cannot leave the working range.
    pub open spec fn durations_wf(&self) -> bool {
        self.fridge_cooldown_duration <= MAX_DURATION_SECONDS
    }

    /// Accepts the settings exactly when the bands are ordered.
    pub fn validate(&self) -> (r: Result<(), AtmosError>)
        ensures
            r is Ok <==> self.bands_ordered(),
            r matches Err(e) ==> e matches AtmosError::ConfigError(m) && m@ == "Invalid temperature ranges"@,
    {
        if self.low_range_start <= self.low_range_end
            && self.low_range_end < self.ideal_range_start
            && self.ideal_range_start <= self.ideal_range_end
            && self.ideal_range_end < self.high_range_start
            && self.high_range_start <= self.high_range_end
        {
            Ok(())
        } else {
            Err(AtmosError::ConfigError(String::from_str("Invalid temperature ranges")))
        }
    }
}

/// Humidity bands, the humidifier's pulse timing and the dehumidifier's
/// configured cooldown (the dehumidifier never enforces it).
#[derive(Clone, Copy, Debug, PartialEq, Eq, Structural)]
pub struct HumiditySettings {
    pub low_range_start: i64,
    pub low_range_end: i64,
    pub high_range_start: i64,
    pub high_range_end: i64,
    pub ideal_range_start: i64,
    pub ideal_range_end: i64,
    pub humidifier_cooldown_duration: u64,
    pub humidifier_activation_duration: u64,
    pub dehumidifier_cooldown_duration: u64,
}

impl HumiditySettings {
    pub open spec fn spec_low_range(&self) -> Band {
        Band { start: self.low_range_start, end: self.low_range_end }
    }

    pub open spec fn spec_high_range(&self) -> Band {
        Band { start: self.high_range_start, end: self.high_range_end }
    }

    pub open spec fn spec_ideal_range(&self) -> Band {
        Band { start: self.ideal_range_start, end: self.ideal_range_end }
    }

    pub fn low_range(&self) -> (r: Band)
        ensures
            r == self.spec_low_range(),
    {
        Band { start: self.low_range_start, end: self.low_range_end }
    }

    pub fn high_range(&self) -> (r: Band)
        ensures
            r == self.spec_high_range(),
    {
        Band { start: self.high_range_start, end: self.high_range_end }
    }

    pub fn ideal_range(&self) -> (r: Band)
        ensures
            r == self.spec_ideal_range(),
    {
        Band { start: self.ideal_range_start, end: self.ideal_range_end }
    }

    /// The band ordering every controller relies on.
    pub open spec fn bands_ordered(&self) -> bool {
        &&& self.low_range_start <= self.low_range_end
        &&& self.low_range_end < self.ideal_range_start
        &&& self.ideal_range_start <= self.ideal_range_end
        &&& self.ideal_range_end < self.high_range_start
        &&& self.high_range_start <= self.high_range_end
    }

    /// All three configured durations stay below the global duration cap.
    pub open spec fn durations_wf(&self) -> bool {
        &&& self.humidifier_cooldown_duration <= MAX_DURATION_SECONDS
        &&& self.humidifier_activation_duration <= MAX_DURATION_SECONDS
        &&& self.dehumidifier_cooldown_duration <= MAX_DURATION_SECONDS
    }

    /// Accepts the settings exactly when the bands are ordered.
    pub fn validate(&self) -> (r: Result<(), AtmosError>)
        ensures
            r is Ok <==> self.bands_ordered(),
            r matches Err(e) ==> e matches AtmosError::ConfigError(m) && m@ == "Invalid humidity ranges"@,
    {
        if self.low_range_start <= self.low_range_end
            && self.low_range_end < self.ideal_range_start
            && self.ideal_range_start <= self.ideal_range_end
            && self.ideal_range_end < self.high_range_start
            && self.high_range_start <= self.high_range_end
        {
            Ok(())
        } else {
            Err(AtmosError::ConfigError(String::from_str("Invalid humidity ranges")))
        }
    }
}

/// Duty cycle of the ventilator: rest at least `interval` seconds between
/// pulses, run `duration` seconds per pulse.
#[derive(Clone, Copy, Debug, PartialEq, Eq, Structural)]
pub struct VentilationSettings {
    pub interval: u64,
    pub duration: u64,
}

impl VentilationSettings {
    /// Both configured durations stay below the global duration cap.
    pub open spec fn durations_wf(&self) -> bool {
        &&& self.interval <= MAX_DURATION_SECONDS
        &&& self.duration <= MAX_DURATION_SECONDS
    }
}

/// Where the time-series store lives.
#[derive(Clone, Debug)]
pub struct InfluxDbSettings {
    pub host: String,
    pub database: String,
}

/// The relay channel (GPIO pin number) that drives each appliance.
#[derive(Clone, Copy, Debug, PartialEq, Eq, Structural)]
pub struct RelayPinSettings {
    pub humidifier: u8,
    pub dehumidifier: u8,
    pub ventilator_or_heater: u8,
    pub fridge: u8,
}

impl RelayPinSettings {
    /// The four configured pins, in the order they are initialised and
    /// released: humidifier, dehumidifier, ventilator/heater, fridge.
    pub fn all_pins(&self) -> (r: Vec<u8>)
        ensures
            r@ == seq![self.humidifier, self.dehumidifier, self.ventilator_or_heater, self.fridge],
    {
        let mut pins: Vec<u8> = Vec::new();
        pins.push(self.humidifier);
        pins.push(self.dehumidifier);
        pins.push(self.ventilator_or_heater);
        pins.push(self.fridge);
        proof {
            assert(pins@ =~= seq![
                self.humidifier,
                self.dehumidifier,
                self.ventilator_or_heater,
                self.fridge,
            ]);
        }
        pins
    }
}

/// Address the status server binds to.
#[derive(Clone, Debug)]
pub struct WebserverSettings {
    pub host: String,
    pub port: u16,
}

/// Seconds to rest between sensor polls.
#[derive(Clone, Copy, Debug, PartialEq, Eq, Structural)]
pub struct SensorReadCooldownSettings {
    pub duration: u64,
}

/// Seconds between control ticks.
#[derive(Clone, Copy, Debug, PartialEq, Eq, Structural)]
pub struct PollingIntervalSettings {
    pub duration: u64,
}

/// Name of the relational store's database file.
#[derive(Clone, Debug)]
pub struct SqliteSettings {
    pub db_name: String,
}

/// Everything the engine is configured with.
#[derive(Clone, Debug)]
pub struct Settings {
    pub temperature: TemperatureSettings,
    pub humidity: HumiditySettings,
    pub ventilation: VentilationSettings,
    pub relay_pins: RelayPinSettings,
    pub webserver: WebserverSettings,
    pub sensor_read_cooldown: SensorReadCooldownSettings,
    pub polling_interval: PollingIntervalSettings,
    pub sqlite: SqliteSettings,
}

impl Settings {
    /// Both band families are ordered.
    pub open spec fn bands_ordered(&self) -> bool {
        self.temperature.bands_ordered() && self.humidity.bands_ordered()
    }

    /// Every configured duration the controllers consume stays below the
    /// global duration cap.
    pub open spec fn durations_wf(&self) -> bool {
        &&& self.temperature.durations_wf()
        &&& self.humidity.durations_wf()
        &&& self.ventilation.durations_wf()
    }

    /// Accepts the settings exactly when both band families are ordered;
    /// the first family out of order names the error.
    pub fn validate(&self) -> (r: Result<(), AtmosError>)
        ensures
            r is Ok <==> self.bands_ordered(),
            r matches Err(e) ==> e matches AtmosError::ConfigError(m) && (m@
                == "Invalid temperature ranges"@ || m@ == "Invalid humidity ranges"@),
    {
        self.temperature.validate()?;
        self.humidity.validate()?;
        Ok(())
    }

    /// Checks the duration cap at run time, so a caller that obtained the
    /// durations from the outside can establish `durations_wf` before
    /// handing the settings to a controller.
    pub fn durations_in_range(&self) -> (r: bool)
        ensures
            r == self.durations_wf(),
    {
        self.temperature.fridge_cooldown_duration <= MAX_DURATION_SECONDS
            && self.humidity.humidifier_cooldown_duration <= MAX_DURATION_SECONDS
            && self.humidity.humidifier_activation_duration <= MAX_DURATION_SECONDS
            && self.humidity.dehumidifier_cooldown_duration <= MAX_DURATION_SECONDS
            && self.ventilation.interval <= MAX_DURATION_SECONDS
            && self.ventilation.duration <= MAX_DURATION_SECONDS
    }
}

/// Ordered bands never share a value: no average can satisfy two of
/// `low`, `ideal`, `high` at once, so a controller's target state is
/// determined by at most one band.
pub proof fn lemma_band_membership_exclusive(low: Band, ideal: Band, high: Band, v: i64)
    requires
        low.end < ideal.start,
        ideal.start <= ideal.end,
        ideal.end < high.start,
    ensures
        !(low.spec_contains(v) && ideal.spec_contains(v)),
        !(ideal.spec_contains(v) && high.spec_contains(v)),
        !(low.spec_contains(v) && high.spec_contains(v)),
{
}

/// The band exclusivity read directly off validated temperature settings.
pub proof fn lemma_temperature_bands_exclusive(t: TemperatureSettings, v: i64)
    requires
        t.bands_ordered(),
    ensures
        !(t.spec_low_range().spec_contains(v) && t.spec_ideal_range().spec_contains(v)),
        !(t.spec_ideal_range().spec_contains(v) && t.spec_high_range().spec_contains(v)),
        !(t.spec_low_range().spec_contains(v) && t.spec_high_range().spec_contains(v)),
{
    lemma_band_membership_exclusive(
        t.spec_low_range(),
        t.spec_ideal_range(),
        t.spec_high_range(),
        v,
    );
}

/// The band exclusivity read directly off validated humidity settings.
pub proof fn lemma_humidity_bands_exclusive(h: HumiditySettings, v: i64)
    requires
        h.bands_ordered(),
    ensures
        !(h.spec_low_range().spec_contains(v) && h.spec_ideal_range().spec_contains(v)),
        !(h.spec_ideal_range().spec_contains(v) && h.spec_high_range().spec_contains(v)),
        !(h.spec_low_range().spec_contains(v) && h.spec_high_range().spec_contains(v)),
{
    lemma_band_membership_exclusive(
        h.spec_low_range(),
        h.spec_ideal_range(),
        h.spec_high_range(),
        v,
    );
}

} // verus!
