use garden_monitor::models::PowerOutage;
use garden_monitor::power_monitor::{
    check_power_restored, check_power_status, outage_message, restored_message,
};
use garden_monitor::timezone::{format_duration, format_duration_minutes, format_kyiv};

fn open_since(started_at: i64) -> PowerOutage {
    PowerOutage { id: 4, started_at, ended_at: None, duration_minutes: None }
}

#[test]
fn outage_opens_only_past_threshold() {
    assert_eq!(check_power_status(Some(0), false, 150), None);
    assert_eq!(
        check_power_status(Some(0), false, 151),
        Some((0, "⚡ Power outage detected!\nLast data: 01.01 03:00".to_string()))
    );
    assert_eq!(check_power_status(Some(1_000), false, 1_100), None);
}

#[test]
fn poll_without_history_does_nothing() {
    assert_eq!(check_power_status(None, false, 1_000_000), None);
    assert_eq!(check_power_status(None, true, 1_000_000), None);
}

#[test]
fn poll_never_touches_an_open_outage() {
    assert_eq!(check_power_status(Some(0), true, 10_000), None);
    assert_eq!(check_power_status(Some(0), true, 100), None);
}

#[test]
fn outage_scenario_opens_and_closes() {
    let (start, alert) = check_power_status(Some(0), false, 160).unwrap();
    assert_eq!(start, 0);
    assert_eq!(alert, outage_message(0));
    let (closed, restored) = check_power_restored(Some(open_since(start)), 500).unwrap();
    assert!(restored.ends_with("\nOutage duration: 8 min"));
    assert_eq!(restored, "✅ Power restored at 01.01 03:08\nOutage duration: 8 min");
    assert_eq!(closed.started_at, 0);
    assert_eq!(closed.ended_at, Some(500));
    assert_eq!(closed.duration_minutes, Some(8));
    assert_eq!(closed.id, 4);
}

#[test]
fn reading_without_open_outage_closes_nothing() {
    assert_eq!(check_power_restored(None, 500), None);
    let done = PowerOutage { ended_at: Some(300), duration_minutes: Some(5), ..open_since(0) };
    assert_eq!(check_power_restored(Some(done), 500), None);
}

#[test]
fn duration_rounds_down() {
    let d = |start: i64, now: i64| check_power_restored(Some(open_since(start)), now).unwrap().0.duration_minutes;
    assert_eq!(d(0, 59), Some(0));
    assert_eq!(d(0, 60), Some(1));
    assert_eq!(d(0, 7_199), Some(119));
    assert_eq!(d(100, 0), Some(-2));
    assert_eq!(d(i64::MIN, i64::MAX), Some(307_445_734_561_825_860));
}

#[test]
fn duration_texts() {
    assert_eq!(format_duration_minutes(0), "0 min");
    assert_eq!(format_duration_minutes(59), "59 min");
    assert_eq!(format_duration_minutes(60), "1 h");
    assert_eq!(format_duration_minutes(125), "2 h 5 min");
    assert_eq!(format_duration_minutes(-5), "-5 min");
    assert_eq!(format_duration(i64::MIN), "-9223372036854775808 min");
    assert_eq!(format_duration(6_000), "100 h");
}

#[test]
fn kyiv_stamps() {
    // 1970-01-01 00:00 UTC was 03:00 in Kyiv.
    assert_eq!(format_kyiv(0), "01.01 03:00");
    // 2024-01-15 12:00 UTC: winter time, UTC+2.
    assert_eq!(format_kyiv(1_705_320_000), "15.01 14:00");
    // 2024-07-15 12:00 UTC: summer time, UTC+3.
    assert_eq!(format_kyiv(1_721_044_800), "15.07 15:00");
    assert_eq!(format_kyiv(i64::MAX), "??");
    assert_eq!(format_kyiv(i64::MIN), "??");
}

#[test]
fn restore_alert_reports_rounded_down_minutes() {
    let (closed, alert) = check_power_restored(Some(open_since(1_721_040_000)), 1_721_044_800).unwrap();
    assert_eq!(closed.duration_minutes, Some(80));
    assert_eq!(alert, "✅ Power restored at 15.07 15:00\nOutage duration: 1 h 20 min");
    let (_, alert) = check_power_restored(Some(open_since(1_721_044_741)), 1_721_044_800).unwrap();
    assert_eq!(alert, "✅ Power restored at 15.07 15:00\nOutage duration: 0 min");
}

#[test]
fn outage_messages() {
    assert_eq!(outage_message(1_705_320_000), "⚡ Power outage detected!\nLast data: 15.01 14:00");
    assert_eq!(
        restored_message(1_721_044_800, 8),
        "✅ Power restored at 15.07 15:00\nOutage duration: 8 min"
    );
    assert_eq!(
        restored_message(1_721_044_800, 61),
        "✅ Power restored at 15.07 15:00\nOutage duration: 1 h 1 min"
    );
}
