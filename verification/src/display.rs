//! What the tray shows for a reading: the icon label, the tooltip lines, and
//! whether the reading is a charge-threshold hold.

use vstd::prelude::*;
use vstd::string::*;
use crate::battery::BatteryData;
use crate::text::{dec_int, dec_nat, decimal_string, push_char, push_decimal};

verus! {

/// Rates whose magnitude is below this many mW count as a charge-threshold
/// hold while on AC (one watt).
pub const THRESHOLD_MILLIWATTS: i32 = 1000;

/// The label, tooltip and threshold flag that the tray shows for a reading.
pub struct DisplayText {
    pub label: String,
    pub tooltip: String,
    pub threshold: bool,
}

/// Measurement texts that come from floating-point arithmetic: the current in
/// amperes and the voltage in volts, each with two decimals, and the charge
/// percentage (shown as at most 100).
pub struct Measurements {
    pub amps: String,
    pub volts: String,
    pub percent: u32,
}

/// A read counts as usable if it carries a rate, or if it is an AC-online
/// state with neither charging nor discharging, where the driver
/// legitimately reports no rate.
pub open spec fn spec_usable(d: BatteryData) -> bool {
    d.rate is Some || (d.power_online && !d.charging && !d.discharging)
}

/// Whether a reading is usable.
pub fn has_usable_reading(data: &BatteryData) -> (r: bool)
    ensures
        r == spec_usable(*data),
{
    data.rate.is_some() || (data.power_online && !data.charging && !data.discharging)
}

/// On AC, a rate under one watt either way (or no rate while neither
/// charging nor discharging) is the charge threshold holding the battery.
pub open spec fn spec_threshold(d: BatteryData) -> bool {
    d.power_online && match d.rate {
        Some(r) => -THRESHOLD_MILLIWATTS < r < THRESHOLD_MILLIWATTS,
        None => !d.charging && !d.discharging,
    }
}

/// A rate in mW rounded to whole watts, halves away from zero.
pub open spec fn watts_rounded(rate: int) -> int {
    if rate >= 0 {
        (rate + 500) / 1000
    } else {
        -((-rate + 500) / 1000)
    }
}

/// `n / d` rounded to the nearest integer, halves to the even neighbour.
pub open spec fn div_round_half_even(n: nat, d: nat) -> nat
    recommends
        d > 0,
{
    let q = n / d;
    let r = n % d;
    if 2 * r > d {
        q + 1
    } else if 2 * r < d {
        q
    } else if q % 2 == 0 {
        q
    } else {
        q + 1
    }
}

/// A rate in mW as whole watts for the tooltip: halves to even, with a
/// minus sign for every negative rate (so a small discharge reads `-0`).
pub open spec fn watts_text(rate: int) -> Seq<char> {
    if rate < 0 {
        seq!['-'] + dec_nat(div_round_half_even((-rate) as nat, 1000))
    } else {
        dec_nat(div_round_half_even(rate as nat, 1000))
    }
}

pub open spec fn spec_status(d: BatteryData) -> Seq<char> {
    if d.charging {
        "Charging"@
    } else if d.discharging {
        "Discharging"@
    } else {
        "Idle"@
    }
}

pub open spec fn spec_label(d: BatteryData) -> Seq<char> {
    if spec_threshold(d) {
        "T"@
    } else {
        match d.rate {
            Some(r) => dec_int(watts_rounded(r as int)),
            None => "N/A"@,
        }
    }
}

pub open spec fn spec_rate_line(d: BatteryData, amps: Seq<char>) -> Seq<char> {
    if spec_threshold(d) {
        "Threshold (charge limit reached)"@
    } else {
        match d.rate {
            Some(r) => match d.voltage {
                Some(v) => if v > 0 {
                    spec_status(d) + "  "@ + watts_text(r as int) + " W  ("@ + amps + " A)"@
                } else {
                    spec_status(d) + "  "@ + watts_text(r as int) + " W"@
                },
                None => spec_status(d) + "  "@ + watts_text(r as int) + " W"@,
            },
            None => spec_status(d) + "  Rate unavailable"@,
        }
    }
}

pub open spec fn spec_voltage_line(d: BatteryData, volts: Seq<char>) -> Seq<char> {
    match d.voltage {
        Some(v) => "Voltage: "@ + volts + " V"@,
        None => "Voltage: unavailable"@,
    }
}

/// A charge percentage as shown: never more than 100.
pub open spec fn shown_percent(p: nat) -> nat {
    if p > 100 {
        100
    } else {
        p
    }
}

pub open spec fn spec_battery_line(d: BatteryData, percent: nat) -> Seq<char> {
    match d.capacity {
        Some(c) => match d.full_capacity {
            Some(f) => if f > 0 {
                if d.capacity_relative {
                    "Battery: "@ + dec_nat(shown_percent(percent)) + "%"@
                } else {
                    "Battery: "@ + dec_nat(shown_percent(percent)) + "%  ("@ + dec_nat(c as nat) + " / "@
                        + dec_nat(f as nat) + " mWh)"@
                }
            } else {
                "Battery: unknown"@
            },
            None => "Battery: unknown"@,
        },
        None => "Battery: unknown"@,
    }
}

/// The three tooltip lines, separated by newlines.
pub open spec fn spec_tooltip(d: BatteryData, m: Measurements) -> Seq<char> {
    spec_rate_line(d, m.amps@) + "\n"@ + spec_voltage_line(d, m.volts@) + "\n"@
        + spec_battery_line(d, m.percent as nat)
}

/// What the tray shows when there is no battery, or no recent reading.
pub fn no_battery_display() -> (r: DisplayText)
    ensures
        r.label@ == "N/A"@,
        r.tooltip@ == "No battery detected"@,
        !r.threshold,
{
    DisplayText {
        label: String::from_str("N/A"),
        tooltip: String::from_str("No battery detected"),
        threshold: false,
    }
}

fn is_threshold(data: &BatteryData) -> (r: bool)
    ensures
        r == spec_threshold(*data),
{
    data.power_online && match data.rate {
        Some(r) => -THRESHOLD_MILLIWATTS < r && r < THRESHOLD_MILLIWATTS,
        None => !data.charging && !data.discharging,
    }
}

fn rounded_watts(rate: i32) -> (r: i64)
    ensures
        r == watts_rounded(rate as int),
{
    let x = rate as i64;
    if x >= 0 {
        (x + 500) / 1000
    } else {
        -((-x + 500) / 1000)
    }
}

fn push_watts(s: &mut String, rate: i32)
    ensures
        final(s)@ == old(s)@ + watts_text(rate as int),
{
    let x = rate as i64;
    let mag: u64 = if x < 0 {
        (-x) as u64
    } else {
        x as u64
    };
    let q = mag / 1000;
    let r = mag % 1000;
    let n = if 2 * r > 1000 {
        q + 1
    } else if 2 * r < 1000 {
        q
    } else if q % 2 == 0 {
        q
    } else {
        q + 1
    };
    if x < 0 {
        push_char(s, '-');
        push_decimal(s, n);
        assert(s@ =~= old(s)@ + watts_text(rate as int));
    } else {
        push_decimal(s, n);
    }
}

fn push_status(s: &mut String, data: &BatteryData)
    ensures
        final(s)@ == old(s)@ + spec_status(*data),
{
    if data.charging {
        s.append("Charging");
    } else if data.discharging {
        s.append("Discharging");
    } else {
        s.append("Idle");
    }
}

fn push_rate_line(s: &mut String, data: &BatteryData, threshold: bool, m: &Measurements)
    requires
        threshold == spec_threshold(*data),
    ensures
        final(s)@ == old(s)@ + spec_rate_line(*data, m.amps@),
{
    if threshold {
        s.append("Threshold (charge limit reached)");
        return;
    }
    let ghost s0 = s@;
    push_status(s, data);
    match data.rate {
        Some(r) => {
            s.append("  ");
            push_watts(s, r);
            let with_amps = match data.voltage {
                Some(v) => v > 0,
                None => false,
            };
            if with_amps {
                s.append(" W  (");
                s.append(m.amps.as_str());
                s.append(" A)");
            } else {
                s.append(" W");
            }
        },
        None => {
            s.append("  Rate unavailable");
        },
    }
    assert(s@ =~= s0 + spec_rate_line(*data, m.amps@));
}

fn push_voltage_line(s: &mut String, data: &BatteryData, m: &Measurements)
    ensures
        final(s)@ == old(s)@ + spec_voltage_line(*data, m.volts@),
{
    let ghost s0 = s@;
    match data.voltage {
        Some(_) => {
            s.append("Voltage: ");
            s.append(m.volts.as_str());
            s.append(" V");
        },
        None => {
            s.append("Voltage: unavailable");
        },
    }
    assert(s@ =~= s0 + spec_voltage_line(*data, m.volts@));
}

fn push_battery_line(s: &mut String, data: &BatteryData, m: &Measurements)
    ensures
        final(s)@ == old(s)@ + spec_battery_line(*data, m.percent as nat),
{
    let ghost s0 = s@;
    match (data.capacity, data.full_capacity) {
        (Some(c), Some(f)) if f > 0 => {
            s.append("Battery: ");
            let percent: u64 = if m.percent > 100 {
                100
            } else {
                m.percent as u64
            };
            push_decimal(s, percent);
            if data.capacity_relative {
                s.append("%");
            } else {
                s.append("%  (");
                push_decimal(s, c as u64);
                s.append(" / ");
                push_decimal(s, f as u64);
                s.append(" mWh)");
            }
        },
        _ => {
            s.append("Battery: unknown");
        },
    }
    assert(s@ =~= s0 + spec_battery_line(*data, m.percent as nat));
}

/// The label, tooltip and threshold flag for a reading.
///
/// The label is `T` for a threshold hold, else the rate in whole watts
/// (halves away from zero), else `N/A`. The tooltip's first line is the
/// threshold notice or the status with the rate (and, with a positive
/// voltage, the current); then the voltage; then the charge, with mWh figures
/// only when capacities are absolute.
pub fn battery_display(data: &BatteryData, m: &Measurements) -> (r: DisplayText)
    ensures
        r.threshold == spec_threshold(*data),
        r.label@ == spec_label(*data),
        r.tooltip@ == spec_tooltip(*data, *m),
{
    let threshold = is_threshold(data);
    let label = if threshold {
        String::from_str("T")
    } else {
        match data.rate {
            Some(rate) => decimal_string(rounded_watts(rate)),
            None => String::from_str("N/A"),
        }
    };
    let mut tooltip = String::new();
    push_rate_line(&mut tooltip, data, threshold, m);
    tooltip.append("\n");
    push_voltage_line(&mut tooltip, data, m);
    tooltip.append("\n");
    push_battery_line(&mut tooltip, data, m);
    assert(tooltip@ =~= spec_tooltip(*data, *m));
    DisplayText { label, tooltip, threshold }
}


/// A threshold hold always counts as a usable reading, even without a rate.
pub proof fn lemma_threshold_is_usable(d: BatteryData)
    requires
        spec_threshold(d),
    ensures
        spec_usable(d),
{
}

/// Off AC there is no threshold: a known rate is always shown as a number,
/// however small.
pub proof fn lemma_off_ac_shows_the_number(d: BatteryData, r: i32)
    requires
        !d.power_online,
        d.rate == Some(r),
    ensures
        !spec_threshold(d),
        spec_label(d) == dec_int(watts_rounded(r as int)),
{
}

/// On AC, a rate of at least one watt either way is shown as a number, and
/// anything smaller as `T`.
pub proof fn lemma_on_ac_threshold_is_one_watt(d: BatteryData, r: i32)
    requires
        d.power_online,
        d.rate == Some(r),
    ensures
        spec_threshold(d) <==> (-1000 < r < 1000),
        (-1000 < r < 1000) ==> spec_label(d) == "T"@,
        !(-1000 < r < 1000) ==> spec_label(d) == dec_int(watts_rounded(r as int)),
{
}


proof fn lemma_prefix_of_concat(a: Seq<char>, b: Seq<char>)
    ensures
        a.is_prefix_of(a + b),
{
    assert((a + b).subrange(0, a.len() as int) =~= a);
}

/// The tooltip's first line opens with the threshold notice for a threshold
/// hold; otherwise with the status: "Charging" while charging, else
/// "Discharging" while discharging (on AC or not), else "Idle".
pub proof fn lemma_tooltip_opens_with_status(d: BatteryData, m: Measurements)
    ensures
        spec_threshold(d) ==> "Threshold (charge limit reached)"@.is_prefix_of(spec_tooltip(d, m)),
        !spec_threshold(d) && d.charging ==> "Charging"@.is_prefix_of(spec_tooltip(d, m)),
        !spec_threshold(d) && !d.charging && d.discharging ==> "Discharging"@.is_prefix_of(
            spec_tooltip(d, m),
        ),
        !spec_threshold(d) && !d.charging && !d.discharging ==> "Idle"@.is_prefix_of(
            spec_tooltip(d, m),
        ),
{
    let t = spec_tooltip(d, m);
    let rest = "\n"@ + spec_voltage_line(d, m.volts@) + "\n"@ + spec_battery_line(d, m.percent as nat);
    assert(t =~= spec_rate_line(d, m.amps@) + rest);
    if spec_threshold(d) {
        lemma_prefix_of_concat("Threshold (charge limit reached)"@, rest);
    } else {
        let st = spec_status(d);
        let after = spec_rate_line(d, m.amps@).subrange(st.len() as int, spec_rate_line(d, m.amps@).len() as int);
        assert(spec_rate_line(d, m.amps@) =~= st + after);
        assert(t =~= st + (after + rest));
        lemma_prefix_of_concat(st, after + rest);
    }
}

/// The label's number is the rate in whole watts: within half a watt of
/// the rate, a half watt rounding away from zero.
pub proof fn lemma_label_rounding(r: int)
    ensures
        -500 <= r - 1000 * watts_rounded(r) <= 500,
        r - 1000 * watts_rounded(r) == 500 ==> r < 0,
        r - 1000 * watts_rounded(r) == -500 ==> r > 0,
        r >= 0 ==> watts_rounded(r) >= 0,
        r <= 0 ==> watts_rounded(r) <= 0,
{
}

/// The tooltip's watts are the magnitude of the rate in whole watts:
/// within half a watt, a half watt rounding to the even neighbour; a
/// negative rate keeps its minus sign.
pub proof fn lemma_tooltip_watts_rounding(n: nat)
    ensures
        -500 <= n - 1000 * div_round_half_even(n, 1000) <= 500,
        n - 1000 * div_round_half_even(n, 1000) == 500 ==> div_round_half_even(n, 1000) % 2 == 0,
        n - 1000 * div_round_half_even(n, 1000) == -500 ==> div_round_half_even(n, 1000) % 2 == 0,
{
}

/// A negative rate's watts in the tooltip start with a minus sign; a
/// non-negative rate's do not.
pub proof fn lemma_tooltip_watts_sign(r: int)
    ensures
        r < 0 ==> watts_text(r)[0] == '-',
        r >= 0 ==> watts_text(r) == dec_nat(div_round_half_even(r as nat, 1000)),
{
}


/// Without a rate, a reading is a threshold hold exactly when it is on AC and
/// neither charging nor discharging; a reading with a rate is always usable,
/// and one without is usable exactly when it is a threshold hold.
pub proof fn lemma_usable_and_threshold(d: BatteryData)
    ensures
        d.rate is None ==> (spec_threshold(d) <==> (d.power_online && !d.charging && !d.discharging)),
        d.rate is Some ==> spec_usable(d),
        d.rate is None ==> (spec_usable(d) <==> spec_threshold(d)),
{
}

/// The label is `T` for a threshold hold, `N/A` without a rate otherwise,
/// and else a number.
pub proof fn lemma_label_kinds(d: BatteryData)
    ensures
        spec_threshold(d) ==> spec_label(d) == "T"@,
        !spec_threshold(d) && d.rate is None ==> spec_label(d) == "N/A"@,
        !spec_threshold(d) && d.rate is Some ==> spec_label(d) == dec_int(watts_rounded(d.rate->0 as int)),
{
}

/// The tooltip lines: the current appears only with a rate and a positive
/// voltage; an unknown voltage or charge reads "unavailable" / "unknown";
/// mWh figures appear only for absolute capacities.
pub proof fn lemma_tooltip_lines(d: BatteryData, amps: Seq<char>, volts: Seq<char>, p: nat)
    ensures
        !spec_threshold(d) && d.rate is None ==> spec_rate_line(d, amps) == spec_status(d)
            + "  Rate unavailable"@,
        !spec_threshold(d) && d.rate is Some && d.voltage is Some && d.voltage->0 > 0 ==> spec_rate_line(
            d,
            amps,
        ) == spec_status(d) + "  "@ + watts_text(d.rate->0 as int) + " W  ("@ + amps + " A)"@,
        !spec_threshold(d) && d.rate is Some && !(d.voltage is Some && d.voltage->0 > 0)
            ==> spec_rate_line(d, amps) == spec_status(d) + "  "@ + watts_text(d.rate->0 as int)
            + " W"@,
        d.voltage is None ==> spec_voltage_line(d, volts) == "Voltage: unavailable"@,
        d.voltage is Some ==> spec_voltage_line(d, volts) == "Voltage: "@ + volts + " V"@,
        (d.capacity is None || d.full_capacity is None || d.full_capacity == Some(0u32))
            ==> spec_battery_line(d, p) == "Battery: unknown"@,
        d.capacity is Some && d.full_capacity is Some && d.full_capacity->0 > 0 && d.capacity_relative
            ==> spec_battery_line(d, p) == "Battery: "@ + dec_nat(if p > 100 { 100 } else { p }) + "%"@,
        d.capacity is Some && d.full_capacity is Some && d.full_capacity->0 > 0 && !d.capacity_relative
            ==> spec_battery_line(d, p) == "Battery: "@ + dec_nat(if p > 100 { 100 } else { p })
            + "%  ("@ + dec_nat(d.capacity->0 as nat) + " / "@ + dec_nat(d.full_capacity->0 as nat)
            + " mWh)"@,
{
}

} // verus!
