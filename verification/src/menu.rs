//! The tray's context menu: its entries, the command each entry sends, what
//! a command does to the settings, and which tray events open the menu.

use vstd::prelude::*;
use vstd::string::*;
use crate::config::{config_valid, is_preset_name, spec_text_scales, Config, ConfigView, TEXT_SCALES};
use crate::text::{dec_nat, push_char, push_decimal, str_equal};

verus! {

/// Preset entry `i` sends `CMD_COLOR_BASE + i`, a range of its own.
pub const CMD_COLOR_BASE: u16 = 1100;
pub const CMD_BACKGROUND: u16 = 1001;
pub const CMD_STARTUP: u16 = 1002;
pub const CMD_ABOUT: u16 = 1003;
pub const CMD_EXIT: u16 = 1004;
pub const CMD_TEXTSCALE_BASE: u16 = 2000;

/// Mouse and keyboard notifications from the tray icon (low word of the
/// callback's `lParam`) that open the menu.
pub const WM_CONTEXTMENU: u32 = 0x007B;
pub const WM_LBUTTONUP: u32 = 0x0202;
pub const WM_RBUTTONUP: u32 = 0x0205;
pub const NIN_SELECT: u32 = 0x0400;
pub const NIN_KEYSELECT: u32 = 0x0401;

/// What a menu command asks for.
#[derive(Debug, Clone, Copy, PartialEq, Eq, Structural)]
pub enum Command {
    ToggleBackground,
    /// Select the text scale at this index of `TEXT_SCALES`.
    SetTextScale(usize),
    ToggleStartup,
    About,
    Exit,
    /// Select the colour preset at this index of the preset names.
    SelectPreset(usize),
    /// Not a command of this menu.
    Ignore,
}

/// The command an id stands for, given how many presets the menu lists.
/// Fixed commands are matched first, then the text scales (2000 + index),
/// then the presets (1100 + index); everything else, ids from 2005 up
/// included, is ignored.
pub open spec fn spec_command(id: u16, preset_count: u16) -> Command {
    if id == CMD_BACKGROUND {
        Command::ToggleBackground
    } else if CMD_TEXTSCALE_BASE <= id < CMD_TEXTSCALE_BASE + 5 {
        Command::SetTextScale((id - CMD_TEXTSCALE_BASE) as usize)
    } else if id == CMD_STARTUP {
        Command::ToggleStartup
    } else if id == CMD_ABOUT {
        Command::About
    } else if id == CMD_EXIT {
        Command::Exit
    } else if CMD_COLOR_BASE <= id < CMD_COLOR_BASE + preset_count {
        Command::SelectPreset((id - CMD_COLOR_BASE) as usize)
    } else {
        Command::Ignore
    }
}

/// Decodes a `WM_COMMAND` id.
pub fn decode_command(id: u16, preset_count: u16) -> (r: Command)
    requires
        preset_count <= 64435,
    ensures
        r == spec_command(id, preset_count),
{
    if id == CMD_BACKGROUND {
        Command::ToggleBackground
    } else if id >= CMD_TEXTSCALE_BASE && id < CMD_TEXTSCALE_BASE + 5 {
        Command::SetTextScale((id - CMD_TEXTSCALE_BASE) as usize)
    } else if id == CMD_STARTUP {
        Command::ToggleStartup
    } else if id == CMD_ABOUT {
        Command::About
    } else if id == CMD_EXIT {
        Command::Exit
    } else if id >= CMD_COLOR_BASE && id < CMD_COLOR_BASE + preset_count {
        Command::SelectPreset((id - CMD_COLOR_BASE) as usize)
    } else {
        Command::Ignore
    }
}

/// The settings after a command: the background flips, or the scale or
/// preset at the given index is selected; other commands leave them alone.
pub open spec fn spec_apply(c: ConfigView, cmd: Command, names: Seq<Seq<char>>) -> ConfigView {
    match cmd {
        Command::ToggleBackground => ConfigView { background: !c.background, ..c },
        Command::SetTextScale(i) => ConfigView { text_scale: spec_text_scales()[i as int], ..c },
        Command::SelectPreset(i) => ConfigView { preset: names[i as int], ..c },
        _ => c,
    }
}

/// Whether a command changes the settings (they are then saved and the
/// icon redrawn).
pub open spec fn changes_config(cmd: Command) -> bool {
    cmd is ToggleBackground || cmd is SetTextScale || cmd is SelectPreset
}

pub open spec fn names_view(names: Seq<&str>) -> Seq<Seq<char>> {
    names.map_values(|n: &str| n@)
}

/// Applies a command to the settings; returns whether they changed.
pub fn apply_command(cfg: &mut Config, cmd: Command, preset_names: &[&str]) -> (changed: bool)
    requires
        cmd matches Command::SetTextScale(i) ==> i < 5,
        cmd matches Command::SelectPreset(i) ==> i < preset_names@.len(),
    ensures
        changed == changes_config(cmd),
        final(cfg)@ == spec_apply(old(cfg)@, cmd, names_view(preset_names@)),
        cmd matches Command::SetTextScale(i) ==> final(cfg).text_scale == seq![
            75u32,
            100u32,
            125u32,
            150u32,
            200u32,
        ][i as int] && final(cfg).preset@ == old(cfg).preset@ && final(cfg).background
            == old(cfg).background,
        cmd matches Command::SelectPreset(i) ==> final(cfg).preset@ == preset_names@[i as int]@
            && final(cfg).text_scale == old(cfg).text_scale && final(cfg).background
            == old(cfg).background,
        cmd is ToggleBackground ==> final(cfg).background == !old(cfg).background
            && final(cfg).preset@ == old(cfg).preset@ && final(cfg).text_scale == old(cfg).text_scale,
        !changes_config(cmd) ==> final(cfg)@ == old(cfg)@,
{
    match cmd {
        Command::ToggleBackground => {
            cfg.background = !cfg.background;
            true
        },
        Command::SetTextScale(i) => {
            cfg.text_scale = TEXT_SCALES[i];
            true
        },
        Command::SelectPreset(i) => {
            cfg.preset = String::from_str(preset_names[i]);
            true
        },
        _ => false,
    }
}

/// Applying any decoded command to valid settings, with the presets' own
/// names, leaves them valid.
pub proof fn lemma_commands_keep_config_valid(c: ConfigView, id: u16, names: Seq<Seq<char>>)
    requires
        config_valid(c),
        names.len() <= 64435,
        forall|i: int| 0 <= i < names.len() ==> is_preset_name(#[trigger] names[i]),
    ensures
        config_valid(spec_apply(c, spec_command(id, names.len() as u16), names)),
{
    let cmd = spec_command(id, names.len() as u16);
    if let Command::SetTextScale(i) = cmd {
        assert(spec_text_scales().contains(spec_text_scales()[i as int]));
    }
}

/// Toggling the background twice restores the settings.
pub proof fn lemma_background_toggle_twice(c: ConfigView, names: Seq<Seq<char>>)
    ensures
        spec_apply(spec_apply(c, Command::ToggleBackground, names), Command::ToggleBackground, names) == c,
{
}

/// Whether a tray notification opens the menu: context-menu, left or right
/// button release, or selection by mouse or keyboard.
pub open spec fn spec_opens_menu(event: u32) -> bool {
    let e = event & 0xFFFF;
    e == WM_CONTEXTMENU || e == WM_RBUTTONUP || e == WM_LBUTTONUP || e == NIN_SELECT || e == NIN_KEYSELECT
}

/// Decides whether a tray notification (its `lParam`) opens the menu.
pub fn opens_menu(event: u32) -> (r: bool)
    ensures
        r == spec_opens_menu(event),
{
    let e = event & 0xFFFF;
    e == WM_CONTEXTMENU || e == WM_RBUTTONUP || e == WM_LBUTTONUP || e == NIN_SELECT || e == NIN_KEYSELECT
}

/// The kind of a menu entry.
#[derive(Debug, Clone, Copy, PartialEq, Eq, Structural)]
pub enum EntryKind {
    Command,
    Separator,
    /// Opens the submenu of colour presets.
    ColorSubmenu,
    /// Opens the submenu of text scales.
    ScaleSubmenu,
}

/// One menu entry: its kind, label, command id (0 when it sends none) and
/// check mark.
pub struct MenuEntry {
    pub kind: EntryKind,
    pub label: String,
    pub id: u16,
    pub checked: bool,
}

pub struct EntryView {
    pub kind: EntryKind,
    pub label: Seq<char>,
    pub id: u16,
    pub checked: bool,
}

impl View for MenuEntry {
    type V = EntryView;

    open spec fn view(&self) -> EntryView {
        EntryView { kind: self.kind, label: self.label@, id: self.id, checked: self.checked }
    }
}

/// The whole menu: the two submenus and the top-level entries.
pub struct TrayMenu {
    pub colors: Vec<MenuEntry>,
    pub scales: Vec<MenuEntry>,
    pub items: Vec<MenuEntry>,
}

pub open spec fn entry(kind: EntryKind, label: Seq<char>, id: u16, checked: bool) -> EntryView {
    EntryView { kind, label, id, checked }
}

/// Preset entry `i`: the name, checked when it is the current preset.
pub open spec fn color_entry(c: ConfigView, name: Seq<char>, i: int) -> EntryView {
    entry(EntryKind::Command, name, (CMD_COLOR_BASE + i) as u16, name == c.preset)
}

/// Scale entry `i`: the percentage, checked when it is the current scale.
pub open spec fn scale_entry(c: ConfigView, i: int) -> EntryView {
    let pct = spec_text_scales()[i];
    entry(EntryKind::Command, dec_nat(pct as nat) + seq!['%'], (CMD_TEXTSCALE_BASE + i) as u16, pct == c.text_scale)
}

/// The top-level entries, in order.
pub open spec fn top_entries(c: ConfigView, startup_enabled: bool) -> Seq<EntryView> {
    seq![
        entry(EntryKind::ColorSubmenu, "Color"@, 0, false),
        entry(EntryKind::ScaleSubmenu, "Text scale"@, 0, false),
        entry(EntryKind::Separator, Seq::empty(), 0, false),
        entry(EntryKind::Command, "Background pill"@, CMD_BACKGROUND, c.background),
        entry(EntryKind::Separator, Seq::empty(), 0, false),
        entry(EntryKind::Command, "Run at startup"@, CMD_STARTUP, startup_enabled),
        entry(EntryKind::Command, "About"@, CMD_ABOUT, false),
        entry(EntryKind::Separator, Seq::empty(), 0, false),
        entry(EntryKind::Command, "E&xit"@, CMD_EXIT, false),
    ]
}

fn make_entry(kind: EntryKind, label: &str, id: u16, checked: bool) -> (r: MenuEntry)
    ensures
        r@ == entry(kind, label@, id, checked),
{
    MenuEntry { kind, label: String::from_str(label), id, checked }
}

fn separator() -> (r: MenuEntry)
    ensures
        r@ == entry(EntryKind::Separator, Seq::empty(), 0, false),
{
    MenuEntry { kind: EntryKind::Separator, label: String::new(), id: 0, checked: false }
}

/// The menu for the current settings, preset names and startup state.
pub fn tray_menu(cfg: &Config, preset_names: &[&str], startup_enabled: bool) -> (r: TrayMenu)
    requires
        preset_names@.len() <= 64436,
    ensures
        r.colors@.len() == preset_names@.len(),
        forall|i: int|
            0 <= i < preset_names@.len() ==> (#[trigger] r.colors@[i])@ == color_entry(
                cfg@,
                preset_names@[i]@,
                i,
            ),
        r.scales@.len() == 5,
        forall|i: int| 0 <= i < 5 ==> (#[trigger] r.scales@[i])@ == scale_entry(cfg@, i),
        r.items@.len() == 9,
        forall|i: int| 0 <= i < 9 ==> (#[trigger] r.items@[i])@ == top_entries(cfg@, startup_enabled)[i],
        r.items@[3].label@ == "Background pill"@ && r.items@[3].id == CMD_BACKGROUND
            && r.items@[3].checked == cfg.background,
        r.items@[5].label@ == "Run at startup"@ && r.items@[5].id == CMD_STARTUP
            && r.items@[5].checked == startup_enabled,
        forall|i: int|
            0 <= i < preset_names@.len() ==> ((#[trigger] r.colors@[i]).checked <==> preset_names@[i]@
                == cfg.preset@),
        forall|i: int| 0 <= i < 5 ==> ((#[trigger] r.scales@[i]).checked <==> listed_scales()[i] == cfg.text_scale),
{
    let mut colors: Vec<MenuEntry> = Vec::new();
    let mut i: usize = 0;
    while i < preset_names.len()
        invariant
            preset_names@.len() <= 64436,
            i <= preset_names@.len(),
            colors@.len() == i,
            forall|k: int|
                0 <= k < i ==> (#[trigger] colors@[k])@ == color_entry(cfg@, preset_names@[k]@, k),
        decreases preset_names@.len() - i,
    {
        let name = preset_names[i];
        let checked = str_equal(name, cfg.preset.as_str());
        colors.push(make_entry(EntryKind::Command, name, CMD_COLOR_BASE + i as u16, checked));
        i += 1;
    }
    let mut scales: Vec<MenuEntry> = Vec::new();
    let mut j: usize = 0;
    while j < 5
        invariant
            j <= 5,
            scales@.len() == j,
            forall|k: int| 0 <= k < j ==> (#[trigger] scales@[k])@ == scale_entry(cfg@, k),
        decreases 5 - j,
    {
        let pct = TEXT_SCALES[j];
        let mut label = String::new();
        push_decimal(&mut label, pct as u64);
        push_char(&mut label, '%');
        assert(label@ =~= dec_nat(pct as nat) + seq!['%']);
        scales.push(
            MenuEntry {
                kind: EntryKind::Command,
                label,
                id: CMD_TEXTSCALE_BASE + j as u16,
                checked: pct == cfg.text_scale,
            },
        );
        j += 1;
    }
    let items = vec![
        make_entry(EntryKind::ColorSubmenu, "Color", 0, false),
        make_entry(EntryKind::ScaleSubmenu, "Text scale", 0, false),
        separator(),
        make_entry(EntryKind::Command, "Background pill", CMD_BACKGROUND, cfg.background),
        separator(),
        make_entry(EntryKind::Command, "Run at startup", CMD_STARTUP, startup_enabled),
        make_entry(EntryKind::Command, "About", CMD_ABOUT, false),
        separator(),
        make_entry(EntryKind::Command, "E&xit", CMD_EXIT, false),
    ];
    TrayMenu { colors, scales, items }
}


/// Preset entry `i` of the menu selects preset `i`, and changes nothing else
/// (for up to 900 presets, whose ids stay below the text-scale ids).
pub proof fn lemma_preset_entry_selects_preset(c: ConfigView, names: Seq<Seq<char>>, i: int)
    requires
        names.len() <= 900,
        0 <= i < names.len(),
    ensures
        spec_command(color_entry(c, names[i], i).id, names.len() as u16) == Command::SelectPreset(
            i as usize,
        ),
        spec_apply(c, Command::SelectPreset(i as usize), names) == (ConfigView { preset: names[i], ..c }),
{
}

/// Text-scale entry `i` of the menu selects scale `i`.
pub proof fn lemma_scale_entry_selects_scale(c: ConfigView, count: u16, i: int)
    requires
        count <= 64435,
        0 <= i < 5,
    ensures
        spec_command(scale_entry(c, i).id, count) == Command::SetTextScale(i as usize),
{
}

/// The command ids of the menu's entries are pairwise distinct: the preset
/// entries, the text-scale entries and the fixed commands (for up to 900
/// presets).
pub proof fn lemma_menu_ids_distinct(c: ConfigView, names: Seq<Seq<char>>, startup_enabled: bool)
    requires
        names.len() <= 900,
    ensures
        forall|i: int, j: int|
            0 <= i < j < names.len() ==> #[trigger] color_entry(c, names[i], i).id != #[trigger] color_entry(
                c,
                names[j],
                j,
            ).id,
        forall|i: int, j: int|
            0 <= i < j < 5 ==> #[trigger] scale_entry(c, i).id != #[trigger] scale_entry(c, j).id,
        forall|i: int, j: int|
            0 <= i < names.len() && 0 <= j < 5 ==> #[trigger] color_entry(c, names[i], i).id
                != #[trigger] scale_entry(c, j).id,
        forall|i: int, k: int|
            0 <= i < names.len() && 0 <= k < 9 && top_entries(c, startup_enabled)[k].kind
                == EntryKind::Command ==> #[trigger] color_entry(c, names[i], i).id
                != #[trigger] top_entries(c, startup_enabled)[k].id,
        forall|j: int, k: int|
            0 <= j < 5 && 0 <= k < 9 && top_entries(c, startup_enabled)[k].kind == EntryKind::Command
                ==> #[trigger] scale_entry(c, j).id != #[trigger] top_entries(c, startup_enabled)[k].id,
        forall|k: int, l: int|
            0 <= k < l < 9 && top_entries(c, startup_enabled)[k].kind == EntryKind::Command
                && top_entries(c, startup_enabled)[l].kind == EntryKind::Command ==> #[trigger] top_entries(
                c,
                startup_enabled,
            )[k].id != #[trigger] top_entries(c, startup_enabled)[l].id,
{
}


/// Ids from 2005 up send no command.
pub proof fn lemma_high_ids_ignored(id: u16, preset_count: u16)
    requires
        id >= 2005,
        preset_count <= 900,
    ensures
        spec_command(id, preset_count) == Command::Ignore,
{
}


/// The text scales on offer, in menu order.
pub open spec fn listed_scales() -> Seq<u32> {
    seq![75u32, 100u32, 125u32, 150u32, 200u32]
}

/// Choosing text-scale entry `i` of the menu sets the scale to the
/// percentage that entry shows (75, 100, 125, 150, 200 for entries 0 to 4),
/// and leaves preset and background as they were.
pub proof fn lemma_scale_entry_sets_its_scale(c: ConfigView, names: Seq<Seq<char>>, i: int)
    requires
        names.len() <= 900,
        0 <= i < 5,
    ensures
        ({
            let after = spec_apply(c, spec_command(scale_entry(c, i).id, names.len() as u16), names);
            &&& after.text_scale == listed_scales()[i]
            &&& scale_entry(c, i).label == dec_nat(after.text_scale as nat) + seq!['%']
            &&& after.preset == c.preset
            &&& after.background == c.background
        }),
        scale_entry(c, i).checked <==> c.text_scale == listed_scales()[i],
{
}

/// The check marks of the menu: a preset entry is checked when it names the
/// current preset, a scale entry when it is the current scale, the
/// background entry when the pill is on, and the startup entry when run at
/// startup is on; nothing else is checked.
pub proof fn lemma_menu_check_marks(c: ConfigView, names: Seq<Seq<char>>, startup_enabled: bool)
    ensures
        forall|i: int|
            0 <= i < names.len() ==> (#[trigger] color_entry(c, names[i], i).checked <==> names[i]
                == c.preset),
        forall|i: int| 0 <= i < 5 ==> (#[trigger] scale_entry(c, i).checked <==> listed_scales()[i] == c.text_scale),
        top_entries(c, startup_enabled)[3].label == "Background pill"@,
        top_entries(c, startup_enabled)[3].id == CMD_BACKGROUND,
        top_entries(c, startup_enabled)[3].kind == EntryKind::Command,
        top_entries(c, startup_enabled)[3].checked == c.background,
        top_entries(c, startup_enabled)[5].label == "Run at startup"@,
        top_entries(c, startup_enabled)[5].id == CMD_STARTUP,
        top_entries(c, startup_enabled)[5].checked == startup_enabled,
        forall|k: int| 0 <= k < 9 && k != 3 && k != 5 ==> !(#[trigger] top_entries(c, startup_enabled)[k]).checked,
{
}


/// The fixed command ids: 1001 background, 1002 run at startup, 1003 about,
/// 1004 exit; 2000 to 2004 the text scales in order.
pub proof fn lemma_fixed_command_ids(n: u16, i: int)
    requires
        n <= 900,
        0 <= i < 5,
    ensures
        spec_command(1001, n) == Command::ToggleBackground,
        spec_command(1002, n) == Command::ToggleStartup,
        spec_command(1003, n) == Command::About,
        spec_command(1004, n) == Command::Exit,
        spec_command((2000 + i) as u16, n) == Command::SetTextScale(i as usize),
        spec_command(1000, n) == Command::Ignore,
        (n as int) < 1100 ==> spec_command(1099, n) == Command::Ignore,
{
}

/// The tray notifications that open the menu: context menu, left or right
/// button up, and selection by mouse or keyboard; their high word is ignored.
pub proof fn lemma_menu_events(event: u32)
    ensures
        spec_opens_menu(0x007B),
        spec_opens_menu(0x0202),
        spec_opens_menu(0x0205),
        spec_opens_menu(0x0400),
        spec_opens_menu(0x0401),
        !spec_opens_menu(0),
        !spec_opens_menu(0x0200),
        !spec_opens_menu(0x0201),
        !spec_opens_menu(0x0204),
        spec_opens_menu(event) <==> spec_opens_menu(event & 0xFFFF),
{
    assert(0x007Bu32 & 0xFFFF == 0x007B) by (bit_vector);
    assert(0x0202u32 & 0xFFFF == 0x0202) by (bit_vector);
    assert(0x0205u32 & 0xFFFF == 0x0205) by (bit_vector);
    assert(0x0400u32 & 0xFFFF == 0x0400) by (bit_vector);
    assert(0x0401u32 & 0xFFFF == 0x0401) by (bit_vector);
    assert(0u32 & 0xFFFF == 0) by (bit_vector);
    assert(0x0200u32 & 0xFFFF == 0x0200) by (bit_vector);
    assert(0x0201u32 & 0xFFFF == 0x0201) by (bit_vector);
    assert(0x0204u32 & 0xFFFF == 0x0204) by (bit_vector);
    assert((event & 0xFFFF) & 0xFFFF == event & 0xFFFF) by (bit_vector);
}

} // verus!
