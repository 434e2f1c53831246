use battery_wattage::battery::BatteryData;
use battery_wattage::display::Measurements;
use battery_wattage::monitor::{BatteryPoll, PollAction, RefreshState};

fn no_measurements() -> Measurements {
    Measurements { amps: String::new(), volts: String::new(), percent: 0 }
}

fn charging(rate: i32) -> BatteryData {
    BatteryData { rate: Some(rate), charging: true, power_online: true, ..Default::default() }
}

#[test]
fn a_failed_read_is_retried_on_the_fifth_tick() {
    let mut poll = BatteryPoll::new();
    assert_eq!(poll.next_action(), PollAction::OpenAndRead);
    poll.record(false);
    let actions: Vec<PollAction> = (0..6).map(|_| poll.next_action()).collect();
    assert_eq!(
        actions,
        vec![PollAction::Wait, PollAction::Wait, PollAction::Wait, PollAction::Wait, PollAction::OpenAndRead, PollAction::OpenAndRead]
    );
}

#[test]
fn an_open_battery_is_read_every_tick_until_it_fails() {
    let mut poll = BatteryPoll::new();
    assert_eq!(poll.next_action(), PollAction::OpenAndRead);
    poll.record(true);
    for _ in 0..3 {
        assert_eq!(poll.next_action(), PollAction::ReadOpen);
        poll.record(true);
    }
    assert_eq!(poll.next_action(), PollAction::ReadOpen);
    poll.record(false);
    assert_eq!(poll.next_action(), PollAction::Wait);
    assert!(!poll.has_reader);
    assert_eq!(poll.retry_ticks, 3);
}

#[test]
fn no_battery_shows_na_on_the_first_tick_and_only_once() {
    let mut state = RefreshState::new();
    let m = no_measurements();
    let first = state.refresh(None, &m, "Default", true).expect("placeholder");
    assert_eq!(first.display.label, "N/A");
    assert_eq!(first.display.tooltip, "No battery detected");
    assert_eq!(first.color, [120, 180, 220, 255]);
    assert!(state.refresh(None, &m, "Default", false).is_none());
    // Repainted when the tray has lost its icon.
    assert!(state.refresh(None, &m, "Default", true).is_some());
}

#[test]
fn the_last_value_stays_for_ten_seconds_without_a_reading() {
    let mut state = RefreshState::new();
    let m = no_measurements();
    let shown = state.refresh(Some(charging(18_000)), &m, "Default", true).expect("reading");
    assert_eq!(shown.display.label, "18");
    assert_eq!(shown.color, [30, 210, 60, 255]);
    for tick in 1..10 {
        assert!(state.refresh(None, &m, "Default", false).is_none(), "tick {}", tick);
    }
    let placeholder = state.refresh(None, &m, "Default", false).expect("stale");
    assert_eq!(placeholder.display.label, "N/A");
    for _ in 0..5 {
        assert!(state.refresh(None, &m, "Default", false).is_none());
    }
    assert!(state.showing_na);
}

#[test]
fn unusable_readings_count_as_missing() {
    let mut state = RefreshState::new();
    let m = no_measurements();
    assert!(state.refresh(Some(charging(5_000)), &m, "All Green", false).is_some());
    let unusable = BatteryData { charging: true, power_online: true, ..Default::default() };
    for _ in 1..10 {
        assert!(state.refresh(Some(unusable), &m, "All Green", false).is_none());
    }
    let placeholder = state.refresh(Some(unusable), &m, "All Green", false).expect("stale");
    assert_eq!(placeholder.color, [60, 150, 80, 255]);
}

#[test]
fn colour_follows_the_state() {
    let mut state = RefreshState::new();
    let m = no_measurements();
    let discharging = BatteryData { rate: Some(-9_000), discharging: true, ..Default::default() };
    assert_eq!(state.refresh(Some(discharging), &m, "High Contrast", false).unwrap().color, [255, 60, 60, 255]);
    let held = BatteryData { rate: Some(300), charging: true, power_online: true, ..Default::default() };
    let update = state.refresh(Some(held), &m, "High Contrast", false).unwrap();
    assert!(update.display.threshold);
    assert_eq!(update.color, [100, 180, 255, 255]);
    let idle = BatteryData { rate: Some(0), ..Default::default() };
    assert_eq!(state.refresh(Some(idle), &m, "Unknown preset", false).unwrap().color, [120, 180, 220, 255]);
}

#[test]
fn ten_second_fallback_holds_while_the_icon_comes_and_goes() {
    let mut state = RefreshState::new();
    let m = no_measurements();
    assert!(state.refresh(Some(charging(7_000)), &m, "Default", false).is_some());
    for tick in 1..10 {
        let icon_missing = tick % 2 == 0;
        assert!(state.refresh(None, &m, "Default", icon_missing).is_none(), "tick {}", tick);
    }
    assert_eq!(state.refresh(None, &m, "Default", false).expect("stale").display.label, "N/A");
    assert!(state.refresh(None, &m, "Default", false).is_none());
    assert!(state.refresh(None, &m, "Default", true).is_some());
}
