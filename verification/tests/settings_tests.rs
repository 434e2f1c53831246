use battery_wattage::battery::{battery_tag, reading_from_status};
use battery_wattage::config::{
    background_value, color_presets, config_from_values, is_known_preset, is_text_scale, lookup_preset,
    preset_names, Config, DEFAULT_TEXT_SCALE, TEXT_SCALES,
};
use battery_wattage::registry::{
    dword_value, read_dword_value, read_string_value, startup_value, string_value, units_to_bytes,
};
use battery_wattage::text::{decimal_string, tip_buffer, utf16_to_string, wide_nul};

#[test]
fn default_config() {
    let cfg = Config::default();
    assert_eq!(cfg.preset, "Default");
    assert!(cfg.background);
    assert_eq!(cfg.text_scale, 125);
    assert_eq!(DEFAULT_TEXT_SCALE, 125);
    assert_eq!(TEXT_SCALES, [75, 100, 125, 150, 200]);
}

#[test]
fn presets_in_menu_order() {
    let presets = color_presets();
    let names: Vec<&str> = presets.iter().map(|(n, _)| *n).collect();
    assert_eq!(names, vec!["Default", "All White", "All Green", "High Contrast"]);
    assert_eq!(preset_names(), names);
    assert_eq!(presets[0].1.discharging, [255, 140, 20, 255]);
    assert_eq!(presets[3].1.charging, [0, 255, 0, 255]);
}

#[test]
fn unknown_preset_falls_back_to_default() {
    assert_eq!(lookup_preset("All White").idle, [180, 180, 180, 255]);
    assert_eq!(lookup_preset("no such preset").idle, [120, 180, 220, 255]);
    assert_eq!(lookup_preset("").charging, [30, 210, 60, 255]);
    assert!(is_known_preset("High Contrast"));
    assert!(!is_known_preset("high contrast"));
    assert!(is_text_scale(150));
    assert!(!is_text_scale(110));
}

#[test]
fn stored_values_are_validated() {
    let cfg = config_from_values(Some("Bogus".to_string()), Some(0), Some(110));
    assert_eq!((cfg.preset.as_str(), cfg.background, cfg.text_scale), ("Default", false, 125));
    let cfg = config_from_values(None, None, None);
    assert_eq!((cfg.preset.as_str(), cfg.background, cfg.text_scale), ("Default", true, 125));
    let cfg = config_from_values(Some("All White".to_string()), Some(7), Some(75));
    assert_eq!((cfg.preset.as_str(), cfg.background, cfg.text_scale), ("All White", true, 75));
}

#[test]
fn saved_settings_load_back() {
    for (name, bg, scale) in [("High Contrast", false, 200u32), ("Default", true, 75)] {
        let preset_bytes = string_value(name);
        let bg_bytes = dword_value(background_value(bg));
        let scale_bytes = dword_value(scale);
        let cfg = config_from_values(
            read_string_value(&preset_bytes),
            read_dword_value(&bg_bytes),
            read_dword_value(&scale_bytes),
        );
        assert_eq!((cfg.preset.as_str(), cfg.background, cfg.text_scale), (name, bg, scale));
    }
}

#[test]
fn registry_string_layout() {
    assert_eq!(string_value("Ab"), vec![b'A', 0, b'b', 0, 0, 0]);
    assert_eq!(string_value("é€"), vec![0xE9, 0x00, 0xAC, 0x20, 0, 0]);
    assert_eq!(string_value("😀"), vec![0x3D, 0xD8, 0x00, 0xDE, 0, 0]);
    assert_eq!(read_string_value(&[b'H', 0, b'i', 0, 0, 0, b'x', 0]).unwrap(), "Hi");
    assert_eq!(read_string_value(&[b'H', 0, b'i', 0, b'!']).unwrap(), "Hi");
    assert!(read_string_value(&[b'H']).is_none());
    assert_eq!(read_string_value(&[0, 0]).unwrap(), "");
    // An unpaired surrogate reads as the replacement character.
    assert_eq!(read_string_value(&[0x3D, 0xD8, b'a', 0]).unwrap(), "\u{FFFD}a");
}

#[test]
fn utf16_matches_std() {
    for s in ["", "Wattage Monitor", "Grüße 😀 ok", "\u{10FFFF}\u{FFFF}"] {
        let mut expected: Vec<u16> = s.encode_utf16().collect();
        expected.push(0);
        assert_eq!(wide_nul(s), expected);
    }
    let units = [0x48u16, 0xD83D, 0xDE00, 0xDC00, 0xD800, 0x41, 0xD800];
    assert_eq!(utf16_to_string(&units), String::from_utf16_lossy(&units));
}

#[test]
fn dword_layout() {
    assert_eq!(dword_value(0x0102_0304), vec![4, 3, 2, 1]);
    assert_eq!(read_dword_value(&[200, 0, 0, 0]), Some(200));
    assert_eq!(read_dword_value(&[1, 0, 0]), None);
}

#[test]
fn startup_value_is_the_path_with_a_terminator() {
    let mut buf = [0u16; 512];
    for (i, u) in "C:\\a.exe".encode_utf16().enumerate() {
        buf[i] = u;
    }
    let bytes = startup_value(&buf, 8).unwrap();
    let mut expected: Vec<u16> = "C:\\a.exe".encode_utf16().collect();
    expected.push(0);
    assert_eq!(bytes, units_to_bytes(&expected));
    assert!(startup_value(&buf, 0).is_none());
    assert!(startup_value(&buf, 512).is_none());
}

#[test]
fn tooltip_buffer_is_cut_to_128_units() {
    let tip = tip_buffer("Wattage Monitor");
    assert_eq!(tip.len(), 128);
    let mut expected: Vec<u16> = "Wattage Monitor".encode_utf16().collect();
    expected.resize(128, 0);
    assert_eq!(tip, expected);
    let long = "x".repeat(200);
    let tip = tip_buffer(&long);
    assert_eq!(tip.len(), 128);
    assert!(tip.iter().all(|&u| u == b'x' as u16));
    let exact = "y".repeat(127);
    let tip = tip_buffer(&exact);
    assert_eq!(tip[126], b'y' as u16);
    assert_eq!(tip[127], 0);
}

#[test]
fn decimal_strings() {
    for n in [0i64, 7, 10, 99, -1, -12, 1234567890, i64::MAX, i64::MIN] {
        assert_eq!(decimal_string(n), n.to_string());
    }
}

#[test]
fn status_flags_and_unknown_values() {
    let r = reading_from_status(4 | 1, 12_000, 11_900, 40_000, Some((50_000, 0)));
    assert_eq!(r.rate, Some(12_000));
    assert_eq!(r.voltage, Some(11_900));
    assert_eq!(r.capacity, Some(40_000));
    assert_eq!(r.full_capacity, Some(50_000));
    assert!(r.charging && r.power_online && !r.discharging && !r.capacity_relative);
    assert_eq!(r.power_state, 5);

    let r = reading_from_status(2, i32::MIN, u32::MAX, u32::MAX, Some((u32::MAX, 0)));
    assert_eq!((r.rate, r.voltage, r.capacity, r.full_capacity), (None, None, None, None));
    assert!(r.discharging && !r.charging && !r.power_online);

    // Relative capacities: the rate is not in mW and is withheld.
    let r = reading_from_status(0, 500, 12_000, 80, Some((100, 0x4000_0000)));
    assert_eq!(r.rate, None);
    assert!(r.capacity_relative);
    assert_eq!(r.full_capacity, Some(100));

    // A failed information query leaves the full capacity unknown.
    let r = reading_from_status(1, -3_000, 12_000, 80, None);
    assert_eq!((r.rate, r.full_capacity, r.capacity_relative), (Some(-3_000), None, false));
}

#[test]
fn invalid_battery_tag() {
    assert_eq!(battery_tag(0), None);
    assert_eq!(battery_tag(17), Some(17));
}
