//! Settings: colour presets, the background pill, the text scale, and how
//! stored values become a valid configuration.

use vstd::prelude::*;
use vstd::string::*;
use crate::text::str_equal;

verus! {

/// Text scale options (font size as a percentage of normal).
pub const TEXT_SCALES: [u32; 5] = [75, 100, 125, 150, 200];
/// The text scale used when none (or an unknown one) is stored.
pub const DEFAULT_TEXT_SCALE: u32 = 125;

/// Colours (RGBA) of the label in each battery state.
#[derive(Debug, Clone, Copy)]
pub struct ColorPreset {
    pub charging: [u8; 4],
    pub discharging: [u8; 4],
    pub idle: [u8; 4],
}

/// The user's settings.
#[derive(Debug, Clone)]
pub struct Config {
    /// Name of the colour preset.
    pub preset: String,
    /// Whether the rounded background pill is drawn behind the label.
    pub background: bool,
    /// Font scale percentage.
    pub text_scale: u32,
}

/// A configuration with its preset name as characters.
pub struct ConfigView {
    pub preset: Seq<char>,
    pub background: bool,
    pub text_scale: u32,
}

impl View for Config {
    type V = ConfigView;

    open spec fn view(&self) -> ConfigView {
        ConfigView { preset: self.preset@, background: self.background, text_scale: self.text_scale }
    }
}

impl Default for Config {
    /// The "Default" preset, with the background pill, at the default scale.
    fn default() -> (r: Self)
        ensures
            r@ == default_config(),
    {
        Config { preset: String::from_str("Default"), background: true, text_scale: DEFAULT_TEXT_SCALE }
    }
}

pub open spec fn default_config() -> ConfigView {
    ConfigView { preset: "Default"@, background: true, text_scale: DEFAULT_TEXT_SCALE }
}

pub open spec fn spec_text_scales() -> Seq<u32> {
    seq![75u32, 100u32, 125u32, 150u32, 200u32]
}

pub open spec fn rgba(r: u8, g: u8, b: u8, a: u8) -> Seq<u8> {
    seq![r, g, b, a]
}

/// The presets in menu order: name, charging, discharging and idle colours.
pub open spec fn preset_table() -> Seq<(Seq<char>, Seq<u8>, Seq<u8>, Seq<u8>)> {
    seq![
        ("Default"@, rgba(30, 210, 60, 255), rgba(255, 140, 20, 255), rgba(120, 180, 220, 255)),
        ("All White"@, rgba(220, 220, 220, 255), rgba(200, 200, 200, 255), rgba(180, 180, 180, 255)),
        ("All Green"@, rgba(30, 210, 60, 255), rgba(100, 180, 60, 255), rgba(60, 150, 80, 255)),
        ("High Contrast"@, rgba(0, 255, 0, 255), rgba(255, 60, 60, 255), rgba(100, 180, 255, 255)),
    ]
}

/// A preset holds the colours of table entry `i`.
pub open spec fn preset_is(p: ColorPreset, i: int) -> bool {
    &&& p.charging@ == preset_table()[i].1
    &&& p.discharging@ == preset_table()[i].2
    &&& p.idle@ == preset_table()[i].3
}

/// The index of the first preset named `name` at or after `i`, or of the
/// "Default" preset (the first) when there is none.
pub open spec fn preset_index_from(name: Seq<char>, i: int) -> int
    decreases 4 - i,
{
    if i >= 4 || i < 0 {
        0
    } else if preset_table()[i].0 == name {
        i
    } else {
        preset_index_from(name, i + 1)
    }
}

/// The preset that a name selects: the one of that name, else "Default".
pub open spec fn preset_index(name: Seq<char>) -> int {
    preset_index_from(name, 0)
}

/// Whether some preset has this name.
pub open spec fn is_preset_name(name: Seq<char>) -> bool {
    exists|i: int| 0 <= i < 4 && preset_table()[i].0 == name
}

/// A configuration names a known preset and a listed text scale.
pub open spec fn config_valid(c: ConfigView) -> bool {
    is_preset_name(c.preset) && spec_text_scales().contains(c.text_scale)
}

fn preset(charging: [u8; 4], discharging: [u8; 4], idle: [u8; 4]) -> (r: ColorPreset)
    ensures
        r.charging == charging,
        r.discharging == discharging,
        r.idle == idle,
{
    ColorPreset { charging, discharging, idle }
}

/// All colour presets, in menu order.
pub fn color_presets() -> (r: Vec<(&'static str, ColorPreset)>)
    ensures
        r@.len() == 4,
        forall|i: int| 0 <= i < 4 ==> (#[trigger] r@[i]).0@ == preset_table()[i].0,
        forall|i: int| 0 <= i < 4 ==> preset_is((#[trigger] r@[i]).1, i),
{
    let v = vec![
        ("Default", preset([30, 210, 60, 255], [255, 140, 20, 255], [120, 180, 220, 255])),
        ("All White", preset([220, 220, 220, 255], [200, 200, 200, 255], [180, 180, 180, 255])),
        ("All Green", preset([30, 210, 60, 255], [100, 180, 60, 255], [60, 150, 80, 255])),
        ("High Contrast", preset([0, 255, 0, 255], [255, 60, 60, 255], [100, 180, 255, 255])),
    ];
    assert(v@[0].1.charging@ =~= rgba(30, 210, 60, 255));
    v
}


/// The preset named `name`, or the "Default" preset when no preset has that
/// name.
pub fn lookup_preset(name: &str) -> (r: ColorPreset)
    ensures
        preset_is(r, preset_index(name@)),
{
    let presets = color_presets();
    let mut i: usize = 0;
    while i < presets.len()
        invariant
            0 <= i <= 4,
            presets@.len() == 4,
            forall|k: int| 0 <= k < 4 ==> (#[trigger] presets@[k]).0@ == preset_table()[k].0,
            forall|k: int| 0 <= k < 4 ==> preset_is((#[trigger] presets@[k]).1, k),
            preset_index_from(name@, i as int) == preset_index(name@),
        decreases 4 - i,
    {
        if str_equal(presets[i].0, name) {
            return presets[i].1;
        }
        i += 1;
    }
    presets[0].1
}

/// The preset names, in menu order.
pub fn preset_names() -> (r: Vec<&'static str>)
    ensures
        r@.len() == 4,
        forall|i: int| 0 <= i < 4 ==> (#[trigger] r@[i])@ == preset_table()[i].0,
{
    let presets = color_presets();
    let mut names: Vec<&'static str> = Vec::new();
    let mut i: usize = 0;
    while i < presets.len()
        invariant
            0 <= i <= 4,
            presets@.len() == 4,
            forall|k: int| 0 <= k < 4 ==> (#[trigger] presets@[k]).0@ == preset_table()[k].0,
            names@.len() == i,
            forall|k: int| 0 <= k < i ==> (#[trigger] names@[k])@ == preset_table()[k].0,
        decreases 4 - i,
    {
        names.push(presets[i].0);
        i += 1;
    }
    names
}

/// Whether `name` is the name of a preset.
pub fn is_known_preset(name: &str) -> (r: bool)
    ensures
        r == is_preset_name(name@),
{
    let presets = color_presets();
    let mut i: usize = 0;
    while i < presets.len()
        invariant
            0 <= i <= 4,
            presets@.len() == 4,
            forall|k: int| 0 <= k < 4 ==> (#[trigger] presets@[k]).0@ == preset_table()[k].0,
            forall|k: int| 0 <= k < i ==> preset_table()[k].0 != name@,
        decreases 4 - i,
    {
        if str_equal(presets[i].0, name) {
            return true;
        }
        i += 1;
    }
    false
}

/// Whether `scale` is one of the listed text scales.
pub fn is_text_scale(scale: u32) -> (r: bool)
    ensures
        r == spec_text_scales().contains(scale),
{
    let mut i: usize = 0;
    while i < 5
        invariant
            0 <= i <= 5,
            forall|k: int| 0 <= k < i ==> spec_text_scales()[k] != scale,
        decreases 5 - i,
    {
        if TEXT_SCALES[i] == scale {
            assert(spec_text_scales()[i as int] == scale);
            return true;
        }
        i += 1;
    }
    assert(!spec_text_scales().contains(scale)) by {
        if spec_text_scales().contains(scale) {
            let k = choose|k: int| 0 <= k < 5 && spec_text_scales()[k] == scale;
            assert(spec_text_scales()[k] != scale);
        }
    }
    false
}

/// The configuration that stored values give: a missing value takes its
/// default, an unknown preset name falls back to "Default", and an unlisted
/// text scale falls back to the default scale. A stored background value is
/// on when nonzero.
pub open spec fn spec_config_from_values(
    preset: Option<Seq<char>>,
    background: Option<u32>,
    text_scale: Option<u32>,
) -> ConfigView {
    let name = match preset {
        Some(p) => p,
        None => "Default"@,
    };
    let scale = match text_scale {
        Some(t) => t,
        None => DEFAULT_TEXT_SCALE,
    };
    ConfigView {
        preset: if is_preset_name(name) {
            name
        } else {
            "Default"@
        },
        background: match background {
            Some(b) => b != 0,
            None => true,
        },
        text_scale: if spec_text_scales().contains(scale) {
            scale
        } else {
            DEFAULT_TEXT_SCALE
        },
    }
}

pub open spec fn opt_view(s: Option<String>) -> Option<Seq<char>> {
    match s {
        Some(x) => Some(x@),
        None => None,
    }
}

/// Builds the configuration from stored values (each `None` when it could
/// not be read), validating as it goes.
pub fn config_from_values(preset: Option<String>, background: Option<u32>, text_scale: Option<u32>) -> (r:
    Config)
    ensures
        r@ == spec_config_from_values(opt_view(preset), background, text_scale),
{
    let mut cfg = Config::default();
    if let Some(p) = preset {
        cfg.preset = p;
    }
    if let Some(b) = background {
        cfg.background = b != 0;
    }
    if let Some(t) = text_scale {
        cfg.text_scale = t;
    }
    if !is_known_preset(cfg.preset.as_str()) {
        cfg.preset = String::from_str("Default");
    }
    if !is_text_scale(cfg.text_scale) {
        cfg.text_scale = DEFAULT_TEXT_SCALE;
    }
    cfg
}

/// The value stored for the background setting: 1 when on, 0 when off.
pub fn background_value(on: bool) -> (r: u32)
    ensures
        r == (if on { 1u32 } else { 0u32 }),
{
    if on {
        1
    } else {
        0
    }
}

/// A valid configuration, stored as its preset name, background value and
/// text scale, comes back unchanged from those values.
pub proof fn lemma_config_values_round_trip(c: ConfigView)
    requires
        config_valid(c),
    ensures
        spec_config_from_values(
            Some(c.preset),
            Some(if c.background { 1u32 } else { 0u32 }),
            Some(c.text_scale),
        ) == c,
{
}

/// Whatever values are stored, the configuration built from them is valid.
pub proof fn lemma_config_from_values_valid(
    preset: Option<Seq<char>>,
    background: Option<u32>,
    text_scale: Option<u32>,
)
    ensures
        config_valid(spec_config_from_values(preset, background, text_scale)),
{
    assert(preset_table()[0].0 == "Default"@);
    assert(spec_text_scales()[2] == DEFAULT_TEXT_SCALE);
}

/// The default configuration is valid.
pub proof fn lemma_default_config_valid()
    ensures
        config_valid(default_config()),
{
    assert(preset_table()[0].0 == "Default"@);
    assert(spec_text_scales()[2] == DEFAULT_TEXT_SCALE);
}


/// Each preset's name selects that preset; any other name selects the
/// first, "Default".
pub proof fn lemma_lookup_selects_named_preset(name: Seq<char>)
    ensures
        name == "Default"@ ==> preset_index(name) == 0,
        name == "All White"@ ==> preset_index(name) == 1,
        name == "All Green"@ ==> preset_index(name) == 2,
        name == "High Contrast"@ ==> preset_index(name) == 3,
        !is_preset_name(name) ==> preset_index(name) == 0,
        0 <= preset_index(name) < 4,
{
    reveal_strlit("Default");
    reveal_strlit("All White");
    reveal_strlit("All Green");
    reveal_strlit("High Contrast");
    reveal_with_fuel(preset_index_from, 5);
    assert("Default"@.len() == 7);
    assert("All White"@.len() == 9);
    assert("All Green"@.len() == 9);
    assert("High Contrast"@.len() == 13);
    assert("All White"@[4] == 'W');
    assert("All Green"@[4] == 'G');
    if name == "All Green"@ {
        assert(preset_table()[1].0 != name) by {
            assert(preset_table()[1].0[4] != name[4]);
        }
    }
    if !is_preset_name(name) {
        assert(preset_table()[0].0 != name);
        assert(preset_table()[1].0 != name);
        assert(preset_table()[2].0 != name);
        assert(preset_table()[3].0 != name);
    }
}

/// The preset colours (RGBA): charging, discharging, idle.
pub proof fn lemma_preset_colours()
    ensures
        preset_table()[0].1 == seq![30u8, 210, 60, 255] && preset_table()[0].2 == seq![255u8, 140, 20, 255]
            && preset_table()[0].3 == seq![120u8, 180, 220, 255],
        preset_table()[1].1 == seq![220u8, 220, 220, 255] && preset_table()[1].2 == seq![200u8, 200, 200, 255]
            && preset_table()[1].3 == seq![180u8, 180, 180, 255],
        preset_table()[2].1 == seq![30u8, 210, 60, 255] && preset_table()[2].2 == seq![100u8, 180, 60, 255]
            && preset_table()[2].3 == seq![60u8, 150, 80, 255],
        preset_table()[3].1 == seq![0u8, 255, 0, 255] && preset_table()[3].2 == seq![255u8, 60, 60, 255]
            && preset_table()[3].3 == seq![100u8, 180, 255, 255],
        spec_text_scales() == seq![75u32, 100, 125, 150, 200],
{
    assert(preset_table()[0].1 =~= seq![30u8, 210, 60, 255]);
}

/// Loading: a known preset name is kept and any other becomes "Default"; a
/// background value is on when nonzero and on when missing; a listed scale
/// is kept and any other (or a missing one) becomes 125.
pub proof fn lemma_loaded_values(p: Option<Seq<char>>, b: Option<u32>, t: Option<u32>)
    ensures
        ({
            let c = spec_config_from_values(p, b, t);
            &&& (p is Some && is_preset_name(p->0) ==> c.preset == p->0)
            &&& (p is Some && !is_preset_name(p->0) ==> c.preset == "Default"@)
            &&& (p is None ==> c.preset == "Default"@)
            &&& (b is Some ==> (c.background <==> b->0 != 0))
            &&& (b is None ==> c.background)
            &&& (t is Some && seq![75u32, 100, 125, 150, 200].contains(t->0) ==> c.text_scale == t->0)
            &&& (t is Some && !seq![75u32, 100, 125, 150, 200].contains(t->0) ==> c.text_scale == 125)
            &&& (t is None ==> c.text_scale == 125)
        }),
{
    assert(spec_text_scales() =~= seq![75u32, 100, 125, 150, 200]);
    reveal_strlit("Default");
    assert(preset_table()[0].0 == "Default"@);
}

} // verus!
