//! Thresholds and timings. Measurements are fixed-point numbers in parts of
//! `UNIT` (percent, degrees Celsius, hectopascals).

use vstd::prelude::*;

verus! {

/// Parts per unit of a measurement (24 fractional bits): every `f32` of
/// magnitude at least 0.5 is held exactly.
pub const UNIT: i64 = 16777216;

/// Soil moisture below this (20%) is very dry.
pub const SOIL_VERY_DRY: i64 = 20 * UNIT;

/// Soil moisture below this (40%) is getting dry.
pub const SOIL_DRY: i64 = 40 * UNIT;

/// Soil moisture at or above this (70%) is very wet.
pub const SOIL_WET: i64 = 70 * UNIT;

/// Soil moisture below this (30%) raises a low-moisture alert.
pub const SOIL_ALERT_LOW: i64 = 30 * UNIT;

/// Water level below this (20%) needs a refill.
pub const WATER_LOW: i64 = 20 * UNIT;

/// Water level below this (40%) is getting low.
pub const WATER_MEDIUM: i64 = 40 * UNIT;

/// Temperature above this (35 °C) raises a high-temperature alert.
pub const TEMP_ALERT_HIGH: i64 = 35 * UNIT;

/// Temperature below this (5 °C) would raise a low-temperature alert (not wired).
pub const TEMP_ALERT_LOW: i64 = 5 * UNIT;

/// Pressure change below this (-2 hPa) is falling fast.
pub const PRESSURE_FALLING_FAST: i64 = 0 - 2 * UNIT;

/// Pressure change below this (-0.5 hPa) is falling.
pub const PRESSURE_FALLING: i64 = 0 - 8388608;

/// Pressure change above this (2 hPa) is rising fast.
pub const PRESSURE_RISING_FAST: i64 = 2 * UNIT;

/// Pressure change above this (0.5 hPa) is rising.
pub const PRESSURE_RISING: i64 = 8388608;

/// Pressure change below this (-3 hPa) forecasts a storm.
pub const PRESSURE_STORM: i64 = 0 - 3 * UNIT;

/// Pressure change below this (-1.5 hPa) forecasts rain.
pub const PRESSURE_RAIN: i64 = 0 - 25165824;

/// Pressure change above this (1.5 hPa) forecasts clear weather.
pub const PRESSURE_CLEAR: i64 = 25165824;

/// How many hours back the pressure trend looks.
pub const TREND_HOURS: i32 = 3;

/// Minimum seconds between two notifications of a standing alert.
pub const ALERT_COOLDOWN_SECS: i64 = 300;

/// Seconds between two readings of the device.
pub const SENSOR_INTERVAL_SECS: i64 = 60;

/// Seconds without a reading after which power is considered down.
pub const OUTAGE_THRESHOLD_SECS: i64 = 150;

/// Seconds between two runs of the outage check.
pub const CHECK_INTERVAL_SECS: u64 = 120;

} // verus!
