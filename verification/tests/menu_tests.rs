use battery_wattage::config::{config_from_values, is_known_preset, is_text_scale, preset_names, Config};
use battery_wattage::menu::{
    apply_command, decode_command, opens_menu, tray_menu, Command, EntryKind, CMD_ABOUT, CMD_BACKGROUND,
    CMD_COLOR_BASE, CMD_EXIT, CMD_STARTUP, CMD_TEXTSCALE_BASE,
};

#[test]
fn command_ids_decode_in_priority_order() {
    assert_eq!(decode_command(CMD_BACKGROUND, 4), Command::ToggleBackground);
    assert_eq!(decode_command(CMD_STARTUP, 4), Command::ToggleStartup);
    assert_eq!(decode_command(CMD_ABOUT, 4), Command::About);
    assert_eq!(decode_command(CMD_EXIT, 4), Command::Exit);
    assert_eq!(decode_command(CMD_COLOR_BASE, 4), Command::SelectPreset(0));
    assert_eq!(decode_command(CMD_TEXTSCALE_BASE, 4), Command::SetTextScale(0));
    assert_eq!(decode_command(CMD_TEXTSCALE_BASE + 4, 4), Command::SetTextScale(4));
    assert_eq!(decode_command(CMD_TEXTSCALE_BASE + 5, 4), Command::Ignore);
    assert_eq!(decode_command(999, 4), Command::Ignore);
    assert_eq!(decode_command(1105, 6), Command::SelectPreset(5));
    assert_eq!(decode_command(1104, 4), Command::Ignore);
    assert_eq!(decode_command(1000, 4), Command::Ignore);
    for id in [2005u16, 2006, 3000, 3003, 65535] {
        assert_eq!(decode_command(id, 4), Command::Ignore, "id {}", id);
    }
}

#[test]
fn every_preset_entry_selects_its_preset() {
    let names = preset_names();
    let cfg = Config::default();
    let menu = tray_menu(&cfg, &names, false);
    for (i, entry) in menu.colors.iter().enumerate() {
        assert_eq!(entry.id, CMD_COLOR_BASE + i as u16);
        let cmd = decode_command(entry.id, names.len() as u16);
        assert_eq!(cmd, Command::SelectPreset(i));
        let mut after = Config::default();
        assert!(apply_command(&mut after, cmd, &names));
        assert_eq!(after.preset, names[i]);
        assert!(after.background);
        assert_eq!(after.text_scale, 125);
    }
}

#[test]
fn all_menu_command_ids_are_distinct() {
    let names = preset_names();
    let menu = tray_menu(&Config::default(), &names, false);
    let mut ids: Vec<u16> = menu.colors.iter().chain(menu.scales.iter()).map(|e| e.id).collect();
    ids.extend(menu.items.iter().filter(|e| e.kind == EntryKind::Command).map(|e| e.id));
    let mut sorted = ids.clone();
    sorted.sort();
    sorted.dedup();
    assert_eq!(sorted.len(), ids.len());
    for (i, id) in ids.iter().enumerate() {
        let cmd = decode_command(*id, names.len() as u16);
        assert_ne!(cmd, Command::Ignore, "entry {}", i);
    }
}

#[test]
fn commands_change_the_settings() {
    let names = preset_names();
    let mut cfg = Config::default();
    assert!(apply_command(&mut cfg, Command::ToggleBackground, &names));
    assert!(!cfg.background);
    assert!(apply_command(&mut cfg, Command::ToggleBackground, &names));
    assert!(cfg.background);
    assert!(apply_command(&mut cfg, Command::SetTextScale(4), &names));
    assert_eq!(cfg.text_scale, 200);
    assert!(apply_command(&mut cfg, Command::SelectPreset(3), &names));
    assert_eq!(cfg.preset, "High Contrast");
    for cmd in [Command::ToggleStartup, Command::About, Command::Exit, Command::Ignore] {
        assert!(!apply_command(&mut cfg, cmd, &names));
    }
    assert_eq!((cfg.preset.as_str(), cfg.background, cfg.text_scale), ("High Contrast", true, 200));
}

#[test]
fn tray_events_that_open_the_menu() {
    for e in [0x007Bu32, 0x0205, 0x0202, 0x0400, 0x0401, 0x0003_0205, 0xFFFF_0400] {
        assert!(opens_menu(e), "{:#x}", e);
    }
    for e in [0u32, 0x0200, 0x0201, 0x0204, 0x0402, 0x0205_0000] {
        assert!(!opens_menu(e), "{:#x}", e);
    }
}

#[test]
fn menu_lists_presets_scales_and_commands() {
    let names = preset_names();
    let cfg = config_from_values(Some("All Green".to_string()), Some(0), Some(150));
    let menu = tray_menu(&cfg, &names, true);

    let colors: Vec<(&str, u16, bool)> = menu.colors.iter().map(|e| (e.label.as_str(), e.id, e.checked)).collect();
    assert_eq!(
        colors,
        vec![("Default", 1100, false), ("All White", 1101, false), ("All Green", 1102, true), ("High Contrast", 1103, false)]
    );

    let scales: Vec<(&str, u16, bool)> = menu.scales.iter().map(|e| (e.label.as_str(), e.id, e.checked)).collect();
    assert_eq!(
        scales,
        vec![("75%", 2000, false), ("100%", 2001, false), ("125%", 2002, false), ("150%", 2003, true), ("200%", 2004, false)]
    );

    let items: Vec<(EntryKind, &str, u16, bool)> =
        menu.items.iter().map(|e| (e.kind, e.label.as_str(), e.id, e.checked)).collect();
    assert_eq!(
        items,
        vec![
            (EntryKind::ColorSubmenu, "Color", 0, false),
            (EntryKind::ScaleSubmenu, "Text scale", 0, false),
            (EntryKind::Separator, "", 0, false),
            (EntryKind::Command, "Background pill", 1001, false),
            (EntryKind::Separator, "", 0, false),
            (EntryKind::Command, "Run at startup", 1002, true),
            (EntryKind::Command, "About", 1003, false),
            (EntryKind::Separator, "", 0, false),
            (EntryKind::Command, "E&xit", 1004, false),
        ]
    );
}

#[test]
fn every_command_keeps_the_settings_valid() {
    let names = preset_names();
    let mut cfg = Config::default();
    for id in (990u16..1010).chain(1995..2010).chain(1095..1110).chain(2995..3010) {
        let cmd = decode_command(id, names.len() as u16);
        apply_command(&mut cfg, cmd, &names);
        assert!(is_known_preset(&cfg.preset), "id {}", id);
        assert!(is_text_scale(cfg.text_scale), "id {}", id);
    }
}
