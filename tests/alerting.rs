use garden_monitor::alerter::{
    evaluate_alert, is_quiet_hour, is_quiet_hours, recipients, recipients_at_hour, Subscriber,
};
use garden_monitor::config::UNIT;
use garden_monitor::listener::alert_checks;
use garden_monitor::models::{AlertCategory, AlertKind, AlertState, NotificationSettings, SensorData};

/// A device value in parts of `UNIT`, as the service converts it.
fn u(x: f32) -> i64 {
    (x as f64 * UNIT as f64).trunc() as i64
}

fn reading(soil: f32, temp: f32) -> SensorData {
    SensorData {
        temperature: u(temp),
        humidity: u(50.0),
        pressure: u(1013.0),
        soil_moisture: u(soil),
        water_level: u(60.0),
    }
}

fn quiet(start: i16, end: i16) -> NotificationSettings {
    NotificationSettings {
        quiet_hours_enabled: true,
        quiet_hours_start: start,
        quiet_hours_end: end,
        ..NotificationSettings::default_for(1)
    }
}

#[test]
fn false_condition_never_emits_and_clears_active() {
    let priors = [
        None,
        Some(AlertState { active: false, last_sent_at: None }),
        Some(AlertState { active: true, last_sent_at: Some(10) }),
        Some(AlertState { active: true, last_sent_at: None }),
        Some(AlertState { active: false, last_sent_at: Some(-5) }),
    ];
    for prev in priors {
        let d = evaluate_alert(prev, false, 1_000);
        assert!(!d.send);
        assert!(!d.state.active);
        assert_eq!(d.state.last_sent_at, prev.and_then(|s| s.last_sent_at));
    }
}

#[test]
fn first_breach_always_emits() {
    let d = evaluate_alert(None, true, 42);
    assert!(d.send);
    assert_eq!(d.state, AlertState { active: true, last_sent_at: Some(42) });
    // Inactive but recently sent: still a new breach.
    let d = evaluate_alert(Some(AlertState { active: false, last_sent_at: Some(40) }), true, 42);
    assert!(d.send);
    assert_eq!(d.state, AlertState { active: true, last_sent_at: Some(42) });
}

#[test]
fn standing_breach_waits_for_cooldown() {
    let s = AlertState { active: true, last_sent_at: Some(1_000) };
    let d = evaluate_alert(Some(s), true, 1_299);
    assert!(!d.send);
    assert_eq!(d.state, s);
    let d = evaluate_alert(Some(s), true, 1_300);
    assert!(d.send);
    assert_eq!(d.state, AlertState { active: true, last_sent_at: Some(1_300) });
    // Active with no record of a send: notify.
    let d = evaluate_alert(Some(AlertState { active: true, last_sent_at: None }), true, 5);
    assert!(d.send);
}

#[test]
fn cooldown_holds_over_a_sequence() {
    let mut state = None;
    let mut sent = Vec::new();
    for t in (0..2_000).step_by(50) {
        let d = evaluate_alert(state, true, t);
        if d.send {
            sent.push(t);
        }
        state = Some(d.state);
    }
    assert_eq!(sent, vec![0, 300, 600, 900, 1200, 1500, 1800]);
    for w in sent.windows(2) {
        assert!(w[1] - w[0] >= 300);
    }
}

#[test]
fn cleared_breach_notifies_again_at_once() {
    let a = evaluate_alert(None, true, 0);
    let b = evaluate_alert(Some(a.state), false, 10);
    let c = evaluate_alert(Some(b.state), true, 20);
    assert!(a.send && !b.send && c.send);
}

#[test]
fn extreme_instants_do_not_overflow() {
    let s = AlertState { active: true, last_sent_at: Some(i64::MIN) };
    assert!(evaluate_alert(Some(s), true, i64::MAX).send);
    let s = AlertState { active: true, last_sent_at: Some(i64::MAX) };
    assert!(!evaluate_alert(Some(s), true, i64::MIN).send);
}

#[test]
fn quiet_window_is_half_open_across_midnight() {
    let s = quiet(23, 7);
    assert!(!is_quiet_hour(&s, 7));
    assert!(!is_quiet_hour(&s, 22));
    assert!(is_quiet_hour(&s, 23));
    assert!(is_quiet_hour(&s, 6));
    assert!(is_quiet_hour(&s, 0));
}

#[test]
fn quiet_window_within_a_day() {
    let s = quiet(9, 17);
    assert!(!is_quiet_hour(&s, 8));
    assert!(is_quiet_hour(&s, 9));
    assert!(is_quiet_hour(&s, 16));
    assert!(!is_quiet_hour(&s, 17));
    let empty = quiet(5, 5);
    assert!(!is_quiet_hour(&empty, 5));
}

#[test]
fn disabled_quiet_hours_never_suppress() {
    let s = NotificationSettings { quiet_hours_enabled: false, ..quiet(0, 23) };
    for h in 0..24u8 {
        assert!(!is_quiet_hour(&s, h));
    }
}

#[test]
fn quiet_hours_use_kyiv_time() {
    // 2024-01-15 12:00 UTC is 14:00 in Kyiv (winter, UTC+2).
    assert!(is_quiet_hours(&quiet(14, 15), 1_705_320_000));
    assert!(!is_quiet_hours(&quiet(12, 13), 1_705_320_000));
    // 2024-07-15 12:00 UTC is 15:00 in Kyiv (summer, UTC+3).
    assert!(is_quiet_hours(&quiet(15, 16), 1_721_044_800));
    assert!(!is_quiet_hours(&quiet(14, 15), 1_721_044_800));
}

#[test]
fn user_without_preferences_gets_every_category() {
    let c = vec![Subscriber { user_id: 7, settings: None }];
    for h in 0..24u8 {
        assert_eq!(recipients_at_hour(AlertCategory::SoilMoisture, &c, h), vec![7]);
        assert_eq!(recipients_at_hour(AlertCategory::Temperature, &c, h), vec![7]);
        assert_eq!(recipients_at_hour(AlertCategory::Power, &c, h), vec![7]);
    }
}

#[test]
fn fan_out_applies_preferences_and_quiet_hours() {
    let no_soil = NotificationSettings { soil_moisture_alerts: false, ..NotificationSettings::default_for(2) };
    let night = NotificationSettings { telegram_user_id: 3, ..quiet(23, 7) };
    let c = vec![
        Subscriber { user_id: 1, settings: None },
        Subscriber { user_id: 2, settings: Some(no_soil) },
        Subscriber { user_id: 3, settings: Some(night) },
    ];
    assert_eq!(recipients_at_hour(AlertCategory::SoilMoisture, &c, 12), vec![1, 3]);
    assert_eq!(recipients_at_hour(AlertCategory::SoilMoisture, &c, 2), vec![1]);
    assert_eq!(recipients_at_hour(AlertCategory::Temperature, &c, 2), vec![1, 2]);
    assert_eq!(recipients_at_hour(AlertCategory::Power, &c, 23), vec![1, 2]);
    // 2024-01-15 12:00 UTC is 14:00 in Kyiv: nobody is in quiet hours.
    assert_eq!(recipients(AlertCategory::Power, &c, 1_705_320_000), vec![1, 2, 3]);
    assert!(recipients_at_hour(AlertCategory::Power, &Vec::new(), 3).is_empty());
}

#[test]
fn kinds_map_to_their_preference() {
    assert_eq!(AlertKind::SoilMoistureLow.category(), AlertCategory::SoilMoisture);
    assert_eq!(AlertKind::SoilMoistureHigh.category(), AlertCategory::SoilMoisture);
    assert_eq!(AlertKind::WaterLevelLow.category(), AlertCategory::SoilMoisture);
    assert_eq!(AlertKind::TemperatureHigh.category(), AlertCategory::Temperature);
    assert_eq!(AlertKind::TemperatureLow.category(), AlertCategory::Temperature);
}

#[test]
fn default_preferences() {
    let d = NotificationSettings::default();
    assert!(d.soil_moisture_alerts && d.temperature_alerts && d.power_alerts);
    assert!(!d.quiet_hours_enabled);
    assert_eq!((d.quiet_hours_start, d.quiet_hours_end), (23, 7));
    assert_eq!(NotificationSettings::or_default(None, 9).telegram_user_id, 9);
    let stored = NotificationSettings { power_alerts: false, ..d };
    assert_eq!(NotificationSettings::or_default(Some(stored), 9), stored);
}

#[test]
fn soil_scenario_emits_then_waits_then_emits() {
    let mut state = None;
    let mut sent = Vec::new();
    for (t, soil) in [(0i64, 25.0f32), (100, 20.0), (400, 15.0)] {
        let checks = alert_checks(&reading(soil, 20.0));
        let soil_check = &checks[0];
        assert_eq!(soil_check.kind, AlertKind::SoilMoistureLow);
        assert!(soil_check.triggered);
        let d = evaluate_alert(state, soil_check.triggered, t);
        if d.send {
            sent.push(soil_check.message.clone());
        }
        state = Some(d.state);
    }
    assert_eq!(
        sent,
        vec!["⚠️ Low soil moisture: 25.0%".to_string(), "⚠️ Low soil moisture: 15.0%".to_string()]
    );
}

#[test]
fn reading_checks_in_order() {
    let checks = alert_checks(&reading(30.0, 35.1));
    assert_eq!(checks.len(), 2);
    assert_eq!(checks[0].kind, AlertKind::SoilMoistureLow);
    assert!(!checks[0].triggered);
    assert_eq!(checks[0].message, "⚠️ Low soil moisture: 30.0%");
    assert_eq!(checks[1].kind, AlertKind::TemperatureHigh);
    assert!(checks[1].triggered);
    assert_eq!(checks[1].message, "🔥 High temperature: 35.1°C");
    let cold = alert_checks(&reading(29.9, -4.5));
    assert!(cold[0].triggered);
    assert!(!cold[1].triggered);
    assert_eq!(cold[1].message, "🔥 High temperature: -4.5°C");
}

#[test]
fn kinds_have_storage_keys() {
    assert_eq!(AlertKind::SoilMoistureLow.key(), "soil_moisture_low");
    assert_eq!(AlertKind::SoilMoistureHigh.key(), "soil_moisture_high");
    assert_eq!(AlertKind::TemperatureHigh.key(), "temperature_high");
    assert_eq!(AlertKind::TemperatureLow.key(), "temperature_low");
    assert_eq!(AlertKind::WaterLevelLow.key(), "water_level_low");
}

#[test]
fn thresholds_hold_near_the_boundary() {
    let near = alert_checks(&reading(29.96, 35.04));
    assert!(near[0].triggered);
    assert!(near[1].triggered);
    assert_eq!(near[0].message, "⚠️ Low soil moisture: 30.0%");
    assert_eq!(near[1].message, "🔥 High temperature: 35.0°C");
    let at = alert_checks(&reading(30.0, 35.0));
    assert!(!at[0].triggered);
    assert!(!at[1].triggered);
    let just = alert_checks(&reading(29.999998, 35.000004));
    assert!(just[0].triggered);
    assert!(just[1].triggered);
}

#[test]
fn messages_round_like_the_device_format() {
    // One decimal, ties to even, sign kept on values that round to zero.
    for x in [25.0f32, 0.25, 0.75, 12.345, -4.5, -0.04, 99.95, 1013.25] {
        let checks = alert_checks(&reading(x, x));
        assert_eq!(checks[0].message, format!("⚠️ Low soil moisture: {:.1}%", x));
        assert_eq!(checks[1].message, format!("🔥 High temperature: {:.1}°C", x));
    }
}
