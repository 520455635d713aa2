//! The records the decision logic reads and writes. Instants are Unix
//! timestamps in seconds; measurements are fixed-point, in parts of `UNIT`.

use vstd::prelude::*;

verus! {

/// The closed set of threshold conditions.
#[derive(Clone, Copy, Debug, PartialEq, Eq, Structural)]
pub enum AlertKind {
    SoilMoistureLow,
    SoilMoistureHigh,
    TemperatureHigh,
    TemperatureLow,
    WaterLevelLow,
}

/// The preference a user sets to receive an audience's notifications.
#[derive(Clone, Copy, Debug, PartialEq, Eq, Structural)]
pub enum AlertCategory {
    SoilMoisture,
    Temperature,
    Power,
}

impl AlertKind {
    /// The key under which the kind's state is stored.
    pub open spec fn spec_key(self) -> Seq<char> {
        match self {
            AlertKind::SoilMoistureLow => "soil_moisture_low"@,
            AlertKind::SoilMoistureHigh => "soil_moisture_high"@,
            AlertKind::TemperatureHigh => "temperature_high"@,
            AlertKind::TemperatureLow => "temperature_low"@,
            AlertKind::WaterLevelLow => "water_level_low"@,
        }
    }

    /// The key under which the kind's state is stored.
    pub fn key(&self) -> (r: &'static str)
        ensures
            r@ == self.spec_key(),
    {
        match self {
            AlertKind::SoilMoistureLow => "soil_moisture_low",
            AlertKind::SoilMoistureHigh => "soil_moisture_high",
            AlertKind::TemperatureHigh => "temperature_high",
            AlertKind::TemperatureLow => "temperature_low",
            AlertKind::WaterLevelLow => "water_level_low",
        }
    }

    /// The preference that governs notifications of this kind. Water level
    /// follows the soil-moisture preference.
    pub open spec fn spec_category(self) -> AlertCategory {
        match self {
            AlertKind::SoilMoistureLow | AlertKind::SoilMoistureHigh
            | AlertKind::WaterLevelLow => AlertCategory::SoilMoisture,
            AlertKind::TemperatureHigh | AlertKind::TemperatureLow => AlertCategory::Temperature,
        }
    }

    /// The preference that governs notifications of this kind.
    pub fn category(&self) -> (r: AlertCategory)
        ensures
            r == self.spec_category(),
    {
        match self {
            AlertKind::SoilMoistureLow | AlertKind::SoilMoistureHigh
            | AlertKind::WaterLevelLow => AlertCategory::SoilMoisture,
            AlertKind::TemperatureHigh | AlertKind::TemperatureLow => AlertCategory::Temperature,
        }
    }
}

/// The persisted bookkeeping of one alert kind.
#[derive(Clone, Copy, Debug, PartialEq, Eq, Structural)]
pub struct AlertState {
    /// Whether the condition held at the latest evaluation.
    pub active: bool,
    /// When a notification of this kind was last sent.
    pub last_sent_at: Option<i64>,
}

/// One reading of the device, each value in parts of `UNIT` of its unit.
#[derive(Clone, Copy, Debug, PartialEq, Eq, Structural)]
pub struct SensorData {
    /// Degrees Celsius.
    pub temperature: i64,
    /// Percent.
    pub humidity: i64,
    /// Hectopascals.
    pub pressure: i64,
    /// Percent.
    pub soil_moisture: i64,
    /// Percent.
    pub water_level: i64,
}

/// Today's extremes and mean, in parts of `UNIT` of their unit.
#[derive(Clone, Copy, Debug, PartialEq, Eq, Structural)]
pub struct DailyStats {
    pub min_temp: i64,
    pub max_temp: i64,
    pub avg_temp: i64,
    pub min_humidity: i64,
    pub max_humidity: i64,
}

/// An inferred interval without readings. It is open while `ended_at` is absent.
#[derive(Clone, Copy, Debug, PartialEq, Eq, Structural)]
pub struct PowerOutage {
    pub id: i32,
    pub started_at: i64,
    pub ended_at: Option<i64>,
    pub duration_minutes: Option<i64>,
}

/// One user's notification preferences.
#[derive(Clone, Copy, Debug, PartialEq, Eq, Structural)]
pub struct NotificationSettings {
    pub telegram_user_id: i64,
    pub soil_moisture_alerts: bool,
    pub temperature_alerts: bool,
    pub power_alerts: bool,
    pub quiet_hours_enabled: bool,
    /// First quiet hour, 0..=23.
    pub quiet_hours_start: i16,
    /// First hour after the quiet window, 0..=23.
    pub quiet_hours_end: i16,
}

impl NotificationSettings {
    /// The preferences of a user who has set none: every category on, quiet
    /// hours off, window 23 to 7.
    pub open spec fn spec_default_for(user_id: i64) -> NotificationSettings {
        NotificationSettings {
            telegram_user_id: user_id,
            soil_moisture_alerts: true,
            temperature_alerts: true,
            power_alerts: true,
            quiet_hours_enabled: false,
            quiet_hours_start: 23,
            quiet_hours_end: 7,
        }
    }

    /// The default preferences of user `user_id`.
    pub fn default_for(user_id: i64) -> (r: NotificationSettings)
        ensures
            r == NotificationSettings::spec_default_for(user_id),
    {
        NotificationSettings {
            telegram_user_id: user_id,
            soil_moisture_alerts: true,
            temperature_alerts: true,
            power_alerts: true,
            quiet_hours_enabled: false,
            quiet_hours_start: 23,
            quiet_hours_end: 7,
        }
    }

    /// The stored record, or the defaults where the user has none.
    pub open spec fn spec_or_default(stored: Option<NotificationSettings>, user_id: i64) -> NotificationSettings {
        match stored {
            Some(s) => s,
            None => NotificationSettings::spec_default_for(user_id),
        }
    }

    /// The stored record, or the defaults of `user_id` where there is none.
    pub fn or_default(stored: Option<NotificationSettings>, user_id: i64) -> (r: NotificationSettings)
        ensures
            r == NotificationSettings::spec_or_default(stored, user_id),
    {
        match stored {
            Some(s) => s,
            None => NotificationSettings::default_for(user_id),
        }
    }

    /// Whether this user wants notifications of `category`.
    pub open spec fn spec_wants(self, category: AlertCategory) -> bool {
        match category {
            AlertCategory::SoilMoisture => self.soil_moisture_alerts,
            AlertCategory::Temperature => self.temperature_alerts,
            AlertCategory::Power => self.power_alerts,
        }
    }

    /// Whether this user wants notifications of `category`.
    pub fn wants(&self, category: AlertCategory) -> (r: bool)
        ensures
            r == self.spec_wants(category),
    {
        match category {
            AlertCategory::SoilMoisture => self.soil_moisture_alerts,
            AlertCategory::Temperature => self.temperature_alerts,
            AlertCategory::Power => self.power_alerts,
        }
    }
}

impl Default for NotificationSettings {
    fn default() -> (r: NotificationSettings)
        ensures
            r == NotificationSettings::spec_default_for(0),
    {
        NotificationSettings::default_for(0)
    }
}

} // verus!
