//! Pure evaluators over one reading: the alert conditions, and the bands and
//! trends shown in reports.

use vstd::prelude::*;
use crate::config::{
    PRESSURE_CLEAR, PRESSURE_FALLING, PRESSURE_FALLING_FAST, PRESSURE_RAIN, PRESSURE_RISING,
    PRESSURE_RISING_FAST, PRESSURE_STORM, SOIL_ALERT_LOW, SOIL_DRY, SOIL_VERY_DRY, SOIL_WET,
    TEMP_ALERT_HIGH, WATER_LOW, WATER_MEDIUM,
};
use crate::models::SensorData;

verus! {

/// How a measured value stands.
#[derive(Clone, Copy, Debug, PartialEq, Eq, Structural)]
pub enum Status {
    Critical,
    Warning,
    Good,
    High,
}

impl Status {
    /// The coloured circle shown beside the value.
    pub open spec fn spec_emoji(self) -> Seq<char> {
        match self {
            Status::Critical => "🔴"@,
            Status::Warning => "🟡"@,
            Status::Good => "🟢"@,
            Status::High => "🔵"@,
        }
    }

    /// The coloured circle shown beside the value.
    pub fn emoji(&self) -> (r: &'static str)
        ensures
            r@ == self.spec_emoji(),
    {
        match self {
            Status::Critical => "🔴",
            Status::Warning => "🟡",
            Status::Good => "🟢",
            Status::High => "🔵",
        }
    }

    /// The status's name.
    pub fn as_str(&self) -> (r: &'static str)
        ensures
            r@ == match *self {
                Status::Critical => "Critical"@,
                Status::Warning => "Warning"@,
                Status::Good => "Good"@,
                Status::High => "High"@,
            },
    {
        match self {
            Status::Critical => "Critical",
            Status::Warning => "Warning",
            Status::Good => "Good",
            Status::High => "High",
        }
    }
}

/// The soil-moisture band of a value and its advice.
pub struct SoilAnalysis {
    pub status: Status,
    pub message: &'static str,
}

/// The soil-moisture band of a value (in parts of `UNIT`) and its advice.
pub open spec fn soil_band(value: int) -> (Status, Seq<char>) {
    if value < SOIL_VERY_DRY {
        (Status::Critical, "Very dry - water now!"@)
    } else if value < SOIL_DRY {
        (Status::Warning, "Getting dry"@)
    } else if value < SOIL_WET {
        (Status::Good, "Good"@)
    } else {
        (Status::High, "Very wet"@)
    }
}

/// Bands soil moisture (in parts of `UNIT`): under 20% very dry, under 40%
/// dry, under 70% good, else very wet.
pub fn analyze_soil_moisture(value: i64) -> (r: SoilAnalysis)
    ensures
        (r.status, r.message@) == soil_band(value as int),
        value < SOIL_VERY_DRY ==> r.status == Status::Critical && r.message@ == "Very dry - water now!"@,
        SOIL_VERY_DRY <= value < SOIL_DRY ==> r.status == Status::Warning && r.message@ == "Getting dry"@,
        SOIL_DRY <= value < SOIL_WET ==> r.status == Status::Good && r.message@ == "Good"@,
        SOIL_WET <= value ==> r.status == Status::High && r.message@ == "Very wet"@,
{
    if value < SOIL_VERY_DRY {
        SoilAnalysis { status: Status::Critical, message: "Very dry - water now!" }
    } else if value < SOIL_DRY {
        SoilAnalysis { status: Status::Warning, message: "Getting dry" }
    } else if value < SOIL_WET {
        SoilAnalysis { status: Status::Good, message: "Good" }
    } else {
        SoilAnalysis { status: Status::High, message: "Very wet" }
    }
}

/// The water-level band of a value and its advice.
pub struct WaterAnalysis {
    pub status: Status,
    pub message: &'static str,
}

/// The water-level band of a value (in parts of `UNIT`) and its advice.
pub open spec fn water_band(value: int) -> (Status, Seq<char>) {
    if value < WATER_LOW {
        (Status::Critical, "Low - refill needed"@)
    } else if value < WATER_MEDIUM {
        (Status::Warning, "Getting low"@)
    } else {
        (Status::Good, "OK"@)
    }
}

/// Bands the water level (in parts of `UNIT`): under 20% low, under 40%
/// getting low, else fine.
pub fn analyze_water_level(value: i64) -> (r: WaterAnalysis)
    ensures
        (r.status, r.message@) == water_band(value as int),
        value < WATER_LOW ==> r.status == Status::Critical && r.message@ == "Low - refill needed"@,
        WATER_LOW <= value < WATER_MEDIUM ==> r.status == Status::Warning && r.message@ == "Getting low"@,
        WATER_MEDIUM <= value ==> r.status == Status::Good && r.message@ == "OK"@,
{
    if value < WATER_LOW {
        WaterAnalysis { status: Status::Critical, message: "Low - refill needed" }
    } else if value < WATER_MEDIUM {
        WaterAnalysis { status: Status::Warning, message: "Getting low" }
    } else {
        WaterAnalysis { status: Status::Good, message: "OK" }
    }
}

/// The direction of the pressure change over the trend window.
#[derive(Clone, Copy, Debug, PartialEq, Eq, Structural)]
pub enum PressureTrend {
    FallingFast,
    Falling,
    Stable,
    Rising,
    RisingFast,
}

impl PressureTrend {
    /// Arrows for the trend.
    pub open spec fn spec_symbol(self) -> Seq<char> {
        match self {
            PressureTrend::FallingFast => "↓↓"@,
            PressureTrend::Falling => "↓"@,
            PressureTrend::Stable => "→"@,
            PressureTrend::Rising => "↑"@,
            PressureTrend::RisingFast => "↑↑"@,
        }
    }

    /// Words for the trend.
    pub open spec fn spec_label(self) -> Seq<char> {
        match self {
            PressureTrend::FallingFast => "falling fast"@,
            PressureTrend::Falling => "falling"@,
            PressureTrend::Stable => "stable"@,
            PressureTrend::Rising => "rising"@,
            PressureTrend::RisingFast => "rising fast"@,
        }
    }

    /// Arrows for the trend.
    pub fn symbol(&self) -> (r: &'static str)
        ensures
            r@ == self.spec_symbol(),
    {
        match self {
            PressureTrend::FallingFast => "↓↓",
            PressureTrend::Falling => "↓",
            PressureTrend::Stable => "→",
            PressureTrend::Rising => "↑",
            PressureTrend::RisingFast => "↑↑",
        }
    }

    /// Words for the trend.
    pub fn label(&self) -> (r: &'static str)
        ensures
            r@ == self.spec_label(),
    {
        match self {
            PressureTrend::FallingFast => "falling fast",
            PressureTrend::Falling => "falling",
            PressureTrend::Stable => "stable",
            PressureTrend::Rising => "rising",
            PressureTrend::RisingFast => "rising fast",
        }
    }
}

/// A weather outlook with its icon.
pub struct WeatherForecast {
    pub emoji: &'static str,
    pub message: &'static str,
}

/// The trend and outlook of a pressure change.
pub struct PressureAnalysis {
    pub trend: PressureTrend,
    /// Current minus past pressure, in parts of `UNIT` of a hectopascal.
    pub delta: i128,
    pub forecast: WeatherForecast,
}

/// The trend bucket of a pressure change (in parts of `UNIT` of a hectopascal).
pub open spec fn trend_of(delta: int) -> PressureTrend {
    if delta < PRESSURE_FALLING_FAST as i128 {
        PressureTrend::FallingFast
    } else if delta < PRESSURE_FALLING as i128 {
        PressureTrend::Falling
    } else if delta > PRESSURE_RISING_FAST as i128 {
        PressureTrend::RisingFast
    } else if delta > PRESSURE_RISING as i128 {
        PressureTrend::Rising
    } else {
        PressureTrend::Stable
    }
}

/// The outlook of a pressure change: storm, then rain, then clear, else no change.
pub open spec fn forecast_of(delta: int) -> (Seq<char>, Seq<char>) {
    if delta < PRESSURE_STORM as i128 {
        ("⛈"@, "Storm likely"@)
    } else if delta < PRESSURE_RAIN as i128 {
        ("🌧"@, "Rain possible"@)
    } else if delta > PRESSURE_CLEAR as i128 {
        ("☀️"@, "Clear weather"@)
    } else {
        ("🌤"@, "No significant change"@)
    }
}

/// Classifies the change from `past` to `current` pressure (in parts of `UNIT` of a
/// hectopascal).
pub fn analyze_pressure(current: i64, past: i64) -> (r: PressureAnalysis)
    ensures
        r.delta == current - past,
        r.trend == trend_of(current - past),
        (r.forecast.emoji@, r.forecast.message@) == forecast_of(current - past),
{
    let delta: i128 = current as i128 - past as i128;
    let trend = if delta < PRESSURE_FALLING_FAST as i128 {
        PressureTrend::FallingFast
    } else if delta < PRESSURE_FALLING as i128 {
        PressureTrend::Falling
    } else if delta > PRESSURE_RISING_FAST as i128 {
        PressureTrend::RisingFast
    } else if delta > PRESSURE_RISING as i128 {
        PressureTrend::Rising
    } else {
        PressureTrend::Stable
    };
    let forecast = if delta < PRESSURE_STORM as i128 {
        WeatherForecast { emoji: "⛈", message: "Storm likely" }
    } else if delta < PRESSURE_RAIN as i128 {
        WeatherForecast { emoji: "🌧", message: "Rain possible" }
    } else if delta > PRESSURE_CLEAR as i128 {
        WeatherForecast { emoji: "☀️", message: "Clear weather" }
    } else {
        WeatherForecast { emoji: "🌤", message: "No significant change" }
    };
    PressureAnalysis { trend, delta, forecast }
}

/// Soil moisture is under the alert threshold (30%).
pub fn should_alert_soil_low(data: &SensorData) -> (r: bool)
    ensures
        r == (data.soil_moisture < SOIL_ALERT_LOW),
{
    data.soil_moisture < SOIL_ALERT_LOW
}

/// Temperature is over the alert threshold (35 °C).
pub fn should_alert_temp_high(data: &SensorData) -> (r: bool)
    ensures
        r == (data.temperature > TEMP_ALERT_HIGH),
{
    data.temperature > TEMP_ALERT_HIGH
}

} // verus!
