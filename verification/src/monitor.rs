//! The once-a-second decisions: when to (re)open the battery, and what the
//! tray should show after each attempt to read it.

use vstd::prelude::*;
use crate::battery::BatteryData;
use crate::config::{lookup_preset, preset_index, preset_table, ColorPreset};
use crate::display::{
    battery_display, has_usable_reading, no_battery_display, spec_label, spec_threshold,
    spec_tooltip, spec_usable, DisplayText, Measurements,
};

verus! {

/// After the battery cannot be opened or read, this many ticks pass (counting
/// the failing one) before it is opened again.
pub const BATTERY_RETRY_INTERVAL_TICKS: u32 = 5;
/// Ticks without a usable reading before the label falls back to "N/A"
/// (one tick is one second).
pub const STALE_LIMIT_TICKS: u32 = 10;

/// What to do with the battery on this tick.
#[derive(Debug, Clone, Copy, PartialEq, Eq, Structural)]
pub enum PollAction {
    /// Read the battery that is already open.
    ReadOpen,
    /// Do nothing this tick.
    Wait,
    /// Open the battery, then read it.
    OpenAndRead,
}

/// Whether a battery is open, and how many ticks to wait before the next
/// attempt to open one.
#[derive(Debug, Clone, Copy)]
pub struct BatteryPoll {
    pub has_reader: bool,
    pub retry_ticks: u32,
}

pub open spec fn poll_action(s: BatteryPoll) -> PollAction {
    if s.has_reader {
        PollAction::ReadOpen
    } else if s.retry_ticks > 0 {
        PollAction::Wait
    } else {
        PollAction::OpenAndRead
    }
}

pub open spec fn poll_after_action(s: BatteryPoll) -> BatteryPoll {
    if !s.has_reader && s.retry_ticks > 0 {
        BatteryPoll { has_reader: false, retry_ticks: (s.retry_ticks - 1) as u32 }
    } else {
        s
    }
}

/// After an attempt: success keeps (or now holds) an open battery; failure
/// drops it and starts the retry wait.
pub open spec fn poll_after_attempt(s: BatteryPoll, success: bool) -> BatteryPoll {
    if success {
        BatteryPoll { has_reader: true, retry_ticks: s.retry_ticks }
    } else {
        BatteryPoll { has_reader: false, retry_ticks: (BATTERY_RETRY_INTERVAL_TICKS - 1) as u32 }
    }
}

impl BatteryPoll {
    /// No battery open, and the first tick opens one.
    pub fn new() -> (r: Self)
        ensures
            !r.has_reader,
            r.retry_ticks == 0,
    {
        BatteryPoll { has_reader: false, retry_ticks: 0 }
    }

    /// The action for this tick. A waiting tick counts down the retry wait.
    pub fn next_action(&mut self) -> (a: PollAction)
        ensures
            a == poll_action(*old(self)),
            *final(self) == poll_after_action(*old(self)),
    {
        if self.has_reader {
            PollAction::ReadOpen
        } else if self.retry_ticks > 0 {
            self.retry_ticks = self.retry_ticks - 1;
            PollAction::Wait
        } else {
            PollAction::OpenAndRead
        }
    }

    /// Records whether the read (and, for `OpenAndRead`, the open) succeeded.
    pub fn record(&mut self, success: bool)
        ensures
            *final(self) == poll_after_attempt(*old(self), success),
    {
        if success {
            self.has_reader = true;
        } else {
            self.has_reader = false;
            self.retry_ticks = BATTERY_RETRY_INTERVAL_TICKS - 1;
        }
    }
}

/// After a failed attempt, the next four ticks wait and the fifth opens the
/// battery again.
pub proof fn lemma_retry_every_fifth_tick(s: BatteryPoll)
    ensures
        ({
            let f = poll_after_attempt(s, false);
            let s1 = poll_after_action(f);
            let s2 = poll_after_action(s1);
            let s3 = poll_after_action(s2);
            let s4 = poll_after_action(s3);
            &&& poll_action(f) == PollAction::Wait
            &&& poll_action(s1) == PollAction::Wait
            &&& poll_action(s2) == PollAction::Wait
            &&& poll_action(s3) == PollAction::Wait
            &&& poll_action(s4) == PollAction::OpenAndRead
        }),
{
}

/// After a successful attempt, the open battery is read on every tick.
pub proof fn lemma_success_keeps_reading(s: BatteryPoll)
    ensures
        poll_action(poll_after_attempt(s, true)) == PollAction::ReadOpen,
        poll_after_action(poll_after_attempt(s, true)) == poll_after_attempt(s, true),
{
}

/// How long the tray has gone without a usable reading, whether one ever
/// arrived, and whether it shows the "N/A" placeholder.
#[derive(Debug, Clone, Copy)]
pub struct RefreshState {
    pub ticks_since_reading: u32,
    pub had_reading: bool,
    pub showing_na: bool,
}

/// The label and tooltip to show, in a colour.
pub struct TrayUpdate {
    pub display: DisplayText,
    pub color: [u8; 4],
}

pub open spec fn reading_usable(reading: Option<BatteryData>) -> bool {
    match reading {
        Some(d) => spec_usable(d),
        None => false,
    }
}

pub open spec fn saturating_inc(t: u32) -> u32 {
    if t == u32::MAX {
        t
    } else {
        (t + 1) as u32
    }
}

/// Without a usable reading the placeholder is due once no reading ever
/// arrived, or none has for `STALE_LIMIT_TICKS` ticks.
pub open spec fn is_stale(s: RefreshState) -> bool {
    let t = saturating_inc(s.ticks_since_reading);
    !s.had_reading || t >= STALE_LIMIT_TICKS
}

/// The placeholder is painted when due and not already shown (or when the
/// tray has no icon at all).
pub open spec fn shows_placeholder(s: RefreshState, usable: bool, icon_missing: bool) -> bool {
    !usable && is_stale(s) && (!s.showing_na || icon_missing)
}

pub open spec fn refresh_next(s: RefreshState, usable: bool, icon_missing: bool) -> RefreshState {
    if usable {
        RefreshState { ticks_since_reading: 0, had_reading: true, showing_na: false }
    } else {
        RefreshState {
            ticks_since_reading: saturating_inc(s.ticks_since_reading),
            had_reading: s.had_reading,
            showing_na: s.showing_na || shows_placeholder(s, usable, icon_missing),
        }
    }
}

/// The label colour: idle for a threshold hold, else by charge direction.
pub open spec fn spec_color_index(d: BatteryData) -> int {
    if spec_threshold(d) {
        3
    } else if d.charging {
        1
    } else if d.discharging {
        2
    } else {
        3
    }
}

pub open spec fn preset_color(name: Seq<char>, which: int) -> Seq<u8> {
    let e = preset_table()[preset_index(name)];
    if which == 1 {
        e.1
    } else if which == 2 {
        e.2
    } else {
        e.3
    }
}

fn color_for(display_threshold: bool, data: &BatteryData, preset: &ColorPreset) -> (r: [u8; 4])
    ensures
        r == (if display_threshold {
            preset.idle
        } else if data.charging {
            preset.charging
        } else if data.discharging {
            preset.discharging
        } else {
            preset.idle
        }),
{
    if display_threshold {
        preset.idle
    } else if data.charging {
        preset.charging
    } else if data.discharging {
        preset.discharging
    } else {
        preset.idle
    }
}

impl RefreshState {
    /// Nothing read yet and nothing shown.
    pub fn new() -> (r: Self)
        ensures
            r.ticks_since_reading == 0,
            !r.had_reading,
            !r.showing_na,
    {
        RefreshState { ticks_since_reading: 0, had_reading: false, showing_na: false }
    }

    /// One tick: `reading` is what the battery gave (if anything), `m` its
    /// measurement texts, `preset_name` the configured colour preset, and
    /// `icon_missing` whether the tray currently has no icon.
    ///
    /// A usable reading is always shown. Without one, the last good value
    /// stays up until it is stale; then the placeholder is shown once.
    pub fn refresh(
        &mut self,
        reading: Option<BatteryData>,
        m: &Measurements,
        preset_name: &str,
        icon_missing: bool,
    ) -> (r: Option<TrayUpdate>)
        ensures
            *final(self) == refresh_next(*old(self), reading_usable(reading), icon_missing),
            reading_usable(reading) ==> (r matches Some(u) && ({
                let d = reading->0;
                &&& u.display.label@ == spec_label(d)
                &&& u.display.tooltip@ == spec_tooltip(d, *m)
                &&& u.display.threshold == spec_threshold(d)
                &&& u.color@ == preset_color(preset_name@, spec_color_index(d))
                &&& (spec_threshold(d) ==> u.color@ == preset_table()[preset_index(preset_name@)].3)
                &&& (!spec_threshold(d) && d.charging ==> u.color@ == preset_table()[preset_index(
                    preset_name@,
                )].1)
                &&& (!spec_threshold(d) && !d.charging && d.discharging ==> u.color@
                    == preset_table()[preset_index(preset_name@)].2)
                &&& (!spec_threshold(d) && !d.charging && !d.discharging ==> u.color@
                    == preset_table()[preset_index(preset_name@)].3)
            })),
            !reading_usable(reading) ==> (r is Some <==> shows_placeholder(
                *old(self),
                false,
                icon_missing,
            )),
            !reading_usable(reading) ==> (r matches Some(u) ==> {
                &&& u.display.label@ == "N/A"@
                &&& u.display.tooltip@ == "No battery detected"@
                &&& !u.display.threshold
                &&& u.color@ == preset_color(preset_name@, 3)
                &&& u.color@ == preset_table()[preset_index(preset_name@)].3
            }),
    {
        if let Some(data) = reading {
            if has_usable_reading(&data) {
                self.had_reading = true;
                self.ticks_since_reading = 0;
                self.showing_na = false;
                let preset = lookup_preset(preset_name);
                let display = battery_display(&data, m);
                let color = color_for(display.threshold, &data, &preset);
                return Some(TrayUpdate { display, color });
            }
        }
        self.ticks_since_reading = if self.ticks_since_reading == u32::MAX {
            u32::MAX
        } else {
            self.ticks_since_reading + 1
        };
        let stale = !self.had_reading || self.ticks_since_reading >= STALE_LIMIT_TICKS;
        if stale && (!self.showing_na || icon_missing) {
            self.showing_na = true;
            let display = no_battery_display();
            let color = lookup_preset(preset_name).idle;
            Some(TrayUpdate { display, color })
        } else {
            None
        }
    }
}

/// The state after `k` ticks without a usable reading, where on tick `j`
/// (counting from 0) the tray had no icon exactly when `icon_missing[j]`.
pub open spec fn after_failures(s: RefreshState, icon_missing: Seq<bool>, k: nat) -> RefreshState
    decreases k,
{
    if k == 0 {
        s
    } else {
        refresh_next(
            after_failures(s, icon_missing, (k - 1) as nat),
            false,
            icon_missing[k - 1],
        )
    }
}

proof fn lemma_after_failures_shape(s: RefreshState, icon_missing: Seq<bool>, k: nat)
    requires
        s.had_reading,
        s.ticks_since_reading == 0,
        !s.showing_na,
    ensures
        after_failures(s, icon_missing, k).had_reading,
        after_failures(s, icon_missing, k).ticks_since_reading == (if k < u32::MAX {
            k
        } else {
            u32::MAX as nat
        }),
        after_failures(s, icon_missing, k).showing_na == (k >= STALE_LIMIT_TICKS),
    decreases k,
{
    if k > 0 {
        lemma_after_failures_shape(s, icon_missing, (k - 1) as nat);
    }
}

/// Right after a usable reading, whatever the tray icon does meanwhile, the
/// next nine ticks without a usable reading keep the last value up (nothing
/// is painted), the tenth paints the placeholder, and later ones repaint it
/// only on a tick where the tray has no icon.
pub proof fn lemma_placeholder_after_ten_silent_ticks(s: RefreshState, icon_missing: Seq<bool>, k: nat)
    requires
        s.had_reading,
        s.ticks_since_reading == 0,
        !s.showing_na,
    ensures
        k < STALE_LIMIT_TICKS - 1 ==> !shows_placeholder(
            after_failures(s, icon_missing, k),
            false,
            icon_missing[k as int],
        ),
        k == STALE_LIMIT_TICKS - 1 ==> shows_placeholder(
            after_failures(s, icon_missing, k),
            false,
            icon_missing[k as int],
        ),
        k >= STALE_LIMIT_TICKS ==> (shows_placeholder(
            after_failures(s, icon_missing, k),
            false,
            icon_missing[k as int],
        ) <==> icon_missing[k as int]),
        k < STALE_LIMIT_TICKS ==> !after_failures(s, icon_missing, k).showing_na,
        k >= STALE_LIMIT_TICKS ==> after_failures(s, icon_missing, k).showing_na,
{
    lemma_after_failures_shape(s, icon_missing, k);
}

/// A usable reading is shown, whatever came before, and resets the count.
pub proof fn lemma_reading_resets(s: RefreshState, icon_missing: bool)
    ensures
        refresh_next(s, true, icon_missing).ticks_since_reading == 0,
        refresh_next(s, true, icon_missing).had_reading,
        !refresh_next(s, true, icon_missing).showing_na,
        !shows_placeholder(s, true, icon_missing),
{
}

/// Before any reading has arrived, the first tick without one shows the
/// placeholder.
pub proof fn lemma_no_battery_shows_placeholder_at_once(s: RefreshState, icon_missing: bool)
    requires
        !s.had_reading,
        !s.showing_na,
    ensures
        shows_placeholder(s, false, icon_missing),
{
}


/// The colour of a shown reading, from the selected preset: idle for a
/// threshold hold; otherwise charging while charging, discharging while
/// discharging (on AC or not), and idle when neither.
pub proof fn lemma_state_colours(d: BatteryData, name: Seq<char>)
    ensures
        spec_threshold(d) ==> preset_color(name, spec_color_index(d)) == preset_table()[preset_index(
            name,
        )].3,
        !spec_threshold(d) && d.charging ==> preset_color(name, spec_color_index(d))
            == preset_table()[preset_index(name)].1,
        !spec_threshold(d) && !d.charging && d.discharging ==> preset_color(name, spec_color_index(d))
            == preset_table()[preset_index(name)].2,
        !spec_threshold(d) && !d.charging && !d.discharging ==> preset_color(name, spec_color_index(d))
            == preset_table()[preset_index(name)].3,
{
}

/// Draining while plugged in, above the threshold, shows the preset's
/// discharging colour, as it does off AC.
pub proof fn lemma_draining_on_ac_uses_discharging_colour(d: BatteryData, name: Seq<char>, r: i32)
    requires
        d.power_online,
        d.discharging,
        !d.charging,
        d.rate == Some(r),
        r <= -1000,
    ensures
        preset_color(name, spec_color_index(d)) == preset_table()[preset_index(name)].2,
        preset_color(name, spec_color_index(BatteryData { power_online: false, ..d })) == preset_table()[preset_index(name)].2,
{
}

} // verus!
