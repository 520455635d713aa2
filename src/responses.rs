//! The texts of the menu's reports, built from what the store returned.

use vstd::prelude::*;
use crate::analysis::{analyze_pressure, analyze_soil_moisture, analyze_water_level, forecast_of, soil_band, trend_of, water_band};
use crate::config::TREND_HOURS;
use crate::models::{DailyStats, PowerOutage, SensorData};
use crate::text::{int_text, measure_text, push_int, push_measure, push_signed_measure, signed_measure_text};
use crate::timezone::{duration_text, format_duration, format_kyiv, kyiv_stamp};

verus! {

/// Shown where the store has no reading yet.
pub open spec fn no_data_text() -> Seq<char> {
    "No sensor data available"@
}

/// The current-status report of a reading.
pub open spec fn status_text_of(d: SensorData) -> Seq<char> {
    "📊 Current Status\n\n🌡 Temperature: "@ + measure_text(d.temperature as int)
        + "°C\n💧 Humidity: "@ + measure_text(d.humidity as int)
        + "%\n🌪 Pressure: "@ + measure_text(d.pressure as int)
        + " hPa\n🌱 Soil moisture: "@ + measure_text(d.soil_moisture as int)
        + "%\n💦 Water level: "@ + measure_text(d.water_level as int) + "%"@
}

/// The current-status report of a reading.
pub fn format_status(data: &SensorData) -> (r: String)
    ensures
        r@ == status_text_of(*data),
{
    let mut s = String::from_str("📊 Current Status\n\n🌡 Temperature: ");
    push_measure(&mut s, data.temperature as i128);
    s.append("°C\n💧 Humidity: ");
    push_measure(&mut s, data.humidity as i128);
    s.append("%\n🌪 Pressure: ");
    push_measure(&mut s, data.pressure as i128);
    s.append(" hPa\n🌱 Soil moisture: ");
    push_measure(&mut s, data.soil_moisture as i128);
    s.append("%\n💦 Water level: ");
    push_measure(&mut s, data.water_level as i128);
    s.append("%");
    s
}

/// The status report of the latest reading, if there is one.
pub fn status_text(latest: Option<SensorData>) -> (r: String)
    ensures
        r@ == match latest {
            Some(d) => status_text_of(d),
            None => no_data_text(),
        },
{
    match latest {
        Some(d) => format_status(&d),
        None => String::from_str("No sensor data available"),
    }
}

/// The trend line of the weather report, from the pressure `past_pressure`
/// measured the trend window ago.
pub open spec fn trend_text_of(current_pressure: int, past_pressure: Option<i64>) -> Seq<char> {
    match past_pressure {
        Some(past) => {
            let delta = current_pressure - past;
            "📉 "@ + int_text(TREND_HOURS as int) + "h trend: "@ + trend_of(delta).spec_symbol() + " "@
                + trend_of(delta).spec_label() + " ("@ + signed_measure_text(delta) + " hPa)\n\n"@
                + forecast_of(delta).0 + " "@ + forecast_of(delta).1
        },
        None => "📉 Trend: -- no history yet"@,
    }
}

/// The weather report of a reading.
pub open spec fn weather_text_of(d: SensorData, past_pressure: Option<i64>) -> Seq<char> {
    "🌤 Weather\n\n🌡 Temperature: "@ + measure_text(d.temperature as int)
        + "°C\n💧 Humidity: "@ + measure_text(d.humidity as int)
        + "%\n🌪 Pressure: "@ + measure_text(d.pressure as int) + " hPa\n\n"@
        + trend_text_of(d.pressure as int, past_pressure)
}

fn trend_text(current_pressure: i64, past_pressure: Option<i64>) -> (r: String)
    ensures
        r@ == trend_text_of(current_pressure as int, past_pressure),
{
    match past_pressure {
        Some(past) => {
            let analysis = analyze_pressure(current_pressure, past);
            let mut s = String::from_str("📉 ");
            push_int(&mut s, TREND_HOURS as i64);
            s.append("h trend: ");
            s.append(analysis.trend.symbol());
            s.append(" ");
            s.append(analysis.trend.label());
            s.append(" (");
            push_signed_measure(&mut s, analysis.delta);
            s.append(" hPa)\n\n");
            s.append(analysis.forecast.emoji);
            s.append(" ");
            s.append(analysis.forecast.message);
            s
        },
        None => String::from_str("📉 Trend: -- no history yet"),
    }
}

/// The weather report of the latest reading, if there is one, with the
/// pressure trend where a reading from the trend window ago exists.
pub fn weather_text(latest: Option<SensorData>, past_pressure: Option<i64>) -> (r: String)
    ensures
        r@ == match latest {
            Some(d) => weather_text_of(d, past_pressure),
            None => no_data_text(),
        },
{
    match latest {
        Some(d) => {
            let mut s = String::from_str("🌤 Weather\n\n🌡 Temperature: ");
            push_measure(&mut s, d.temperature as i128);
            s.append("°C\n💧 Humidity: ");
            push_measure(&mut s, d.humidity as i128);
            s.append("%\n🌪 Pressure: ");
            push_measure(&mut s, d.pressure as i128);
            s.append(" hPa\n\n");
            let trend = trend_text(d.pressure, past_pressure);
            s.append(trend.as_str());
            s
        },
        None => String::from_str("No sensor data available"),
    }
}

/// The garden report of a reading.
pub open spec fn garden_text_of(d: SensorData) -> Seq<char> {
    "🌱 Garden Status\n\n🌱 Soil moisture: "@ + measure_text(d.soil_moisture as int) + "%\n"@
        + soil_band(d.soil_moisture as int).0.spec_emoji() + " "@ + soil_band(d.soil_moisture as int).1
        + "\n\n💦 Water level: "@ + measure_text(d.water_level as int) + "%\n"@
        + water_band(d.water_level as int).0.spec_emoji() + " "@ + water_band(d.water_level as int).1
}

/// The garden report of the latest reading, if there is one.
pub fn garden_text(latest: Option<SensorData>) -> (r: String)
    ensures
        r@ == match latest {
            Some(d) => garden_text_of(d),
            None => no_data_text(),
        },
{
    match latest {
        Some(d) => {
            let soil = analyze_soil_moisture(d.soil_moisture);
            let water = analyze_water_level(d.water_level);
            let mut s = String::from_str("🌱 Garden Status\n\n🌱 Soil moisture: ");
            push_measure(&mut s, d.soil_moisture as i128);
            s.append("%\n");
            s.append(soil.status.emoji());
            s.append(" ");
            s.append(soil.message);
            s.append("\n\n💦 Water level: ");
            push_measure(&mut s, d.water_level as i128);
            s.append("%\n");
            s.append(water.status.emoji());
            s.append(" ");
            s.append(water.message);
            s
        },
        None => String::from_str("No sensor data available"),
    }
}

/// Today's statistics report.
pub open spec fn stats_text_of(st: DailyStats) -> Seq<char> {
    "📈 Today's Stats\n\n🌡 Temperature:\nMin: "@ + measure_text(st.min_temp as int)
        + "°C\nMax: "@ + measure_text(st.max_temp as int)
        + "°C\nAvg: "@ + measure_text(st.avg_temp as int)
        + "°C\n\n💧 Humidity:\nMin: "@ + measure_text(st.min_humidity as int)
        + "%\nMax: "@ + measure_text(st.max_humidity as int) + "%"@
}

/// Today's statistics report.
pub fn format_stats(stats: &DailyStats) -> (r: String)
    ensures
        r@ == stats_text_of(*stats),
{
    let mut s = String::from_str("📈 Today's Stats\n\n🌡 Temperature:\nMin: ");
    push_measure(&mut s, stats.min_temp as i128);
    s.append("°C\nMax: ");
    push_measure(&mut s, stats.max_temp as i128);
    s.append("°C\nAvg: ");
    push_measure(&mut s, stats.avg_temp as i128);
    s.append("°C\n\n💧 Humidity:\nMin: ");
    push_measure(&mut s, stats.min_humidity as i128);
    s.append("%\nMax: ");
    push_measure(&mut s, stats.max_humidity as i128);
    s.append("%");
    s
}

/// Today's statistics report, or a notice where there is none.
pub fn stats_text(stats: Option<DailyStats>) -> (r: String)
    ensures
        r@ == match stats {
            Some(st) => stats_text_of(st),
            None => "No data for today"@,
        },
{
    match stats {
        Some(st) => format_stats(&st),
        None => String::from_str("No data for today"),
    }
}

/// The line of one finished outage in the power history.
pub open spec fn outage_line(o: PowerOutage) -> Seq<char> {
    "• "@ + kyiv_stamp(o.started_at as int) + " ("@ + match o.duration_minutes {
        Some(m) => duration_text(m as int),
        None => "?"@,
    } + ")\n"@
}

/// The lines of the finished outages among `recent`, in order.
pub open spec fn outage_lines(recent: Seq<PowerOutage>) -> Seq<char>
    decreases recent.len(),
{
    if recent.len() == 0 {
        seq![]
    } else if recent.last().ended_at is Some {
        outage_lines(recent.drop_last()) + outage_line(recent.last())
    } else {
        outage_lines(recent.drop_last())
    }
}

/// The power-history report: the open outage, if any, then the recent ones
/// that have ended.
pub open spec fn power_history_text_of(active: Option<PowerOutage>, recent: Seq<PowerOutage>) -> Seq<char> {
    "⚡ Power History\n\n"@ + match active {
        Some(o) => "🔴 Current outage since "@ + kyiv_stamp(o.started_at as int) + "\n\n"@,
        None => "🟢 Power is OK\n\n"@,
    } + if recent.len() == 0 {
        "No recent outages"@
    } else {
        "Recent outages:\n"@ + outage_lines(recent)
    }
}

/// The power-history report from the open outage and the most recent ones.
pub fn power_history_text(active: Option<PowerOutage>, recent: &Vec<PowerOutage>) -> (r: String)
    ensures
        r@ == power_history_text_of(active, recent@),
{
    let mut s = String::from_str("⚡ Power History\n\n");
    match active {
        Some(o) => {
            s.append("🔴 Current outage since ");
            let started = format_kyiv(o.started_at);
            s.append(started.as_str());
            s.append("\n\n");
        },
        None => {
            s.append("🟢 Power is OK\n\n");
        },
    }
    if recent.len() == 0 {
        s.append("No recent outages");
    } else {
        s.append("Recent outages:\n");
        let ghost head = s@;
        let mut i: usize = 0;
        while i < recent.len()
            invariant
                i <= recent@.len(),
                s@ == head + outage_lines(recent@.take(i as int)),
            decreases recent@.len() - i,
        {
            let o = recent[i];
            if o.ended_at.is_some() {
                s.append("• ");
                let started = format_kyiv(o.started_at);
                s.append(started.as_str());
                s.append(" (");
                match o.duration_minutes {
                    Some(m) => {
                        let d = format_duration(m);
                        s.append(d.as_str());
                    },
                    None => {
                        s.append("?");
                    },
                }
                s.append(")\n");
            }
            proof {
                assert(recent@.take(i as int + 1).drop_last() =~= recent@.take(i as int));
                assert(recent@.take(i as int + 1).last() == o);
            }
            i += 1;
        }
        proof {
            assert(recent@.take(i as int) =~= recent@);
        }
    }
    s
}

} // verus!
