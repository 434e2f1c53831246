use battery_wattage::battery::BatteryData;
use battery_wattage::display::{battery_display, has_usable_reading, no_battery_display, Measurements};

/// The float-derived measurement texts, computed as the tray application does.
fn measurements(data: &BatteryData) -> Measurements {
    let amps = match (data.rate, data.voltage) {
        (Some(rate), Some(voltage)) if voltage > 0 => {
            format!("{:.2}", (rate as f64 / 1000.0).abs() / (voltage as f64 / 1000.0))
        }
        _ => String::new(),
    };
    let volts = match data.voltage {
        Some(voltage) => format!("{:.2}", voltage as f64 / 1000.0),
        None => String::new(),
    };
    let percent = match (data.capacity, data.full_capacity) {
        (Some(c), Some(f)) if f > 0 => ((c as f64 / f as f64) * 100.0).round().clamp(0.0, 100.0) as u32,
        _ => 0,
    };
    Measurements { amps, volts, percent }
}

fn display(data: &BatteryData) -> battery_wattage::display::DisplayText {
    battery_display(data, &measurements(data))
}

#[test]
fn no_battery_uses_na_icon_and_clear_tooltip() {
    let display = no_battery_display();

    assert_eq!(display.label, "N/A");
    assert_eq!(display.tooltip, "No battery detected");
}

#[test]
fn unknown_measurements_are_not_rendered_as_sentinel_values() {
    let display = display(&BatteryData::default());

    assert_eq!(display.label, "N/A");
    assert!(display.tooltip.contains("Rate unavailable"));
    assert!(display.tooltip.contains("Voltage: unavailable"));
    assert!(display.tooltip.contains("Battery: unknown"));
    assert!(!display.tooltip.contains("4294967295"));
    assert!(!display.tooltip.contains("-2147484"));
}

#[test]
fn conservation_mode_uses_threshold_icon_and_tooltip() {
    let data = BatteryData {
        rate: Some(0),
        voltage: Some(12_000),
        capacity: Some(40_000),
        full_capacity: Some(50_000),
        power_online: true,
        ..Default::default()
    };

    let display = display(&data);

    assert_eq!(display.label, "T");
    assert!(display.tooltip.starts_with("Threshold (charge limit reached)"));
}

#[test]
fn offline_idle_battery_remains_idle() {
    let data = BatteryData {
        rate: Some(0),
        voltage: Some(12_000),
        capacity: Some(40_000),
        full_capacity: Some(50_000),
        ..Default::default()
    };

    let display = display(&data);

    assert_eq!(display.label, "0");
    assert!(display.tooltip.starts_with("Idle"));
}

#[test]
fn sub_one_watt_on_ac_is_treated_as_threshold() {
    for milliwatts in [900, -900, 800, -800, 999, -999, 0] {
        let data = BatteryData {
            rate: Some(milliwatts),
            voltage: Some(12_000),
            power_online: true,
            charging: milliwatts > 0,
            discharging: milliwatts < 0,
            ..Default::default()
        };

        let display = display(&data);

        assert_eq!(display.label, "T", "{} mW should read as threshold", milliwatts);
        assert!(display.threshold);
    }
}

#[test]
fn one_watt_or_more_on_ac_shows_the_number() {
    let data = BatteryData {
        rate: Some(1_400),
        voltage: Some(12_000),
        power_online: true,
        charging: true,
        ..Default::default()
    };

    let display = display(&data);

    assert_eq!(display.label, "1");
    assert!(!display.threshold);
    assert!(display.tooltip.starts_with("Charging"));
}

#[test]
fn sub_one_watt_on_battery_is_not_a_threshold() {
    let data = BatteryData {
        rate: Some(-900),
        voltage: Some(12_000),
        discharging: true,
        ..Default::default()
    };

    let display = display(&data);

    assert_eq!(display.label, "-1");
    assert!(!display.threshold);
}

#[test]
fn readings_without_a_rate_are_not_usable() {
    let unknown_rate = BatteryData {
        charging: true,
        power_online: true,
        ..Default::default()
    };
    assert!(!has_usable_reading(&unknown_rate));

    let with_rate = BatteryData {
        rate: Some(12_000),
        charging: true,
        power_online: true,
        ..Default::default()
    };
    assert!(has_usable_reading(&with_rate));
}

#[test]
fn threshold_without_a_rate_still_counts_as_a_reading() {
    let data = BatteryData {
        power_online: true,
        ..Default::default()
    };

    assert!(has_usable_reading(&data));
    assert_eq!(display(&data).label, "T");
}

#[test]
fn relative_capacity_is_not_labeled_as_watts_or_mwh() {
    let data = BatteryData {
        capacity: Some(50),
        full_capacity: Some(100),
        capacity_relative: true,
        charging: true,
        ..Default::default()
    };

    let display = display(&data);

    assert_eq!(display.label, "N/A");
    assert!(display.tooltip.contains("Battery: 50%"));
    assert!(!display.tooltip.contains("mWh"));
    assert!(!display.tooltip.contains(" W"));
}

#[test]
fn full_tooltip_for_a_charging_reading() {
    let data = BatteryData {
        rate: Some(18_400),
        voltage: Some(12_345),
        capacity: Some(40_000),
        full_capacity: Some(50_000),
        charging: true,
        power_online: true,
        ..Default::default()
    };
    let m = Measurements { amps: "1.49".to_string(), volts: "12.35".to_string(), percent: 80 };
    let display = battery_display(&data, &m);
    assert_eq!(display.label, "18");
    assert!(!display.threshold);
    assert_eq!(
        display.tooltip,
        "Charging  18 W  (1.49 A)\nVoltage: 12.35 V\nBattery: 80%  (40000 / 50000 mWh)"
    );
}

#[test]
fn discharging_while_plugged_in_shows_a_negative_number() {
    let data = BatteryData {
        rate: Some(-12_000),
        voltage: Some(0),
        discharging: true,
        power_online: true,
        ..Default::default()
    };
    let display = display(&data);
    assert_eq!(display.label, "-12");
    assert!(!display.threshold);
    assert!(display.tooltip.starts_with("Discharging  -12 W\n"));
}

#[test]
fn charging_without_a_rate_off_ac_is_not_a_threshold() {
    let data = BatteryData { charging: true, ..Default::default() };
    let display = display(&data);
    assert!(!display.threshold);
    assert_eq!(display.label, "N/A");
    assert!(display.tooltip.starts_with("Charging  Rate unavailable"));
}

#[test]
fn label_matches_rounding_of_the_rate_in_watts() {
    let mut rates: Vec<i32> = (-5_000..=5_000).collect();
    rates.extend([i32::MAX, i32::MIN + 1, 2_147_483_500, -2_147_483_500, 123_500, -123_500]);
    for rate in rates {
        let data = BatteryData { rate: Some(rate), ..Default::default() };
        let expected = format!("{}", (rate as f64 / 1000.0).round() as i32);
        assert_eq!(display(&data).label, expected, "rate {}", rate);
    }
}

#[test]
fn tooltip_watts_match_float_formatting() {
    let mut rates: Vec<i32> = (-5_000..=5_000).collect();
    rates.extend([i32::MAX, i32::MIN, i32::MIN + 1, 1_234_500, -1_234_500, 2_500, 3_500]);
    for rate in rates {
        let data = BatteryData { rate: Some(rate), ..Default::default() };
        let expected = format!("Idle  {:.0} W\n", rate as f64 / 1000.0);
        let tooltip = display(&data).tooltip;
        assert!(tooltip.starts_with(&expected), "rate {}: {:?} vs {:?}", rate, tooltip, expected);
    }
}

#[test]
fn unknown_rate_sentinel_is_not_i32_min() {
    // The label of the most negative known rate is still a number.
    let data = BatteryData { rate: Some(i32::MIN + 1), ..Default::default() };
    assert_eq!(display(&data).label, "-2147484");
}

#[test]
fn percentage_is_shown_as_at_most_100() {
    let data = BatteryData { capacity: Some(60_000), full_capacity: Some(50_000), ..Default::default() };
    let m = Measurements { amps: String::new(), volts: String::new(), percent: 120 };
    let display = battery_display(&data, &m);
    assert!(display.tooltip.ends_with("Battery: 100%  (60000 / 50000 mWh)"));
}
