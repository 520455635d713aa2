//! What a newly stored reading asks of the cooldown engine: one condition and
//! message per live alert kind.

use vstd::prelude::*;
use crate::config::{SOIL_ALERT_LOW, TEMP_ALERT_HIGH};
use crate::models::{AlertKind, SensorData};
use crate::text::{push_measure, measure_text};
use crate::analysis::{should_alert_soil_low, should_alert_temp_high};

verus! {

/// One alert kind's condition on a reading, and the notification it would send.
pub struct AlertCheck {
    pub kind: AlertKind,
    pub triggered: bool,
    pub message: String,
}

/// The low-soil-moisture notification for a value in percent (parts of `UNIT`).
pub open spec fn soil_low_text(value: int) -> Seq<char> {
    "⚠️ Low soil moisture: "@ + measure_text(value) + "%"@
}

/// The high-temperature notification for a value in degrees Celsius (parts of `UNIT`).
pub open spec fn temp_high_text(value: int) -> Seq<char> {
    "🔥 High temperature: "@ + measure_text(value) + "°C"@
}

/// The checks a reading raises, in order: low soil moisture, then high
/// temperature. The other kinds have no evaluator yet.
pub fn alert_checks(data: &SensorData) -> (r: Vec<AlertCheck>)
    ensures
        r@.len() == 2,
        r@[0].kind == AlertKind::SoilMoistureLow,
        r@[0].triggered == (data.soil_moisture < SOIL_ALERT_LOW),
        r@[0].message@ == soil_low_text(data.soil_moisture as int),
        r@[1].kind == AlertKind::TemperatureHigh,
        r@[1].triggered == (data.temperature > TEMP_ALERT_HIGH),
        r@[1].message@ == temp_high_text(data.temperature as int),
{
    let mut soil = String::from_str("⚠️ Low soil moisture: ");
    push_measure(&mut soil, data.soil_moisture as i128);
    soil.append("%");
    let mut temp = String::from_str("🔥 High temperature: ");
    push_measure(&mut temp, data.temperature as i128);
    temp.append("°C");
    let mut checks: Vec<AlertCheck> = Vec::new();
    checks.push(AlertCheck {
        kind: AlertKind::SoilMoistureLow,
        triggered: should_alert_soil_low(data),
        message: soil,
    });
    checks.push(AlertCheck {
        kind: AlertKind::TemperatureHigh,
        triggered: should_alert_temp_high(data),
        message: temp,
    });
    checks
}

} // verus!
