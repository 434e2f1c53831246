//! What one battery reading holds, and how it is read off the raw status and
//! information records that the battery driver returns.

use vstd::prelude::*;

verus! {

/// `PowerState` bit: the system is on AC power.
pub const BATTERY_POWER_ON_LINE: u32 = 1;
/// `PowerState` bit: the battery is discharging.
pub const BATTERY_DISCHARGING: u32 = 2;
/// `PowerState` bit: the battery is charging.
pub const BATTERY_CHARGING: u32 = 4;
/// `Capabilities` bit: capacities are relative (percent), not mWh.
pub const BATTERY_CAPACITY_RELATIVE: u32 = 0x4000_0000;
/// Raw rate value that means "rate unknown" (`0x8000_0000` as a signed value).
pub const BATTERY_UNKNOWN_RATE: i32 = -2147483648;
/// Raw capacity value that means "capacity unknown".
pub const BATTERY_UNKNOWN_CAPACITY: u32 = 0xFFFF_FFFF;
/// Raw voltage value that means "voltage unknown".
pub const BATTERY_UNKNOWN_VOLTAGE: u32 = 0xFFFF_FFFF;
/// Battery tag value that names no battery.
pub const BATTERY_TAG_INVALID: u32 = 0;

/// One reading of the battery. Every measurement is optional: the driver may
/// report it as unknown.
#[derive(Debug, Clone, Copy)]
pub struct BatteryData {
    /// Net flow in mW: positive while charging, negative while discharging.
    pub rate: Option<i32>,
    /// Terminal voltage in mV.
    pub voltage: Option<u32>,
    /// Remaining capacity (mWh, or relative units when `capacity_relative`).
    pub capacity: Option<u32>,
    /// Full-charge capacity, in the same unit as `capacity`.
    pub full_capacity: Option<u32>,
    /// The capacities are relative values rather than mWh.
    pub capacity_relative: bool,
    /// Raw `PowerState` flags.
    pub power_state: u32,
    pub charging: bool,
    pub discharging: bool,
    pub power_online: bool,
}

impl Default for BatteryData {
    /// A reading in which nothing is known and no flag is set.
    fn default() -> (r: Self)
        ensures
            r.rate is None,
            r.voltage is None,
            r.capacity is None,
            r.full_capacity is None,
            !r.capacity_relative,
            r.power_state == 0,
            !r.charging,
            !r.discharging,
            !r.power_online,
    {
        BatteryData {
            rate: None,
            voltage: None,
            capacity: None,
            full_capacity: None,
            capacity_relative: false,
            power_state: 0,
            charging: false,
            discharging: false,
            power_online: false,
        }
    }
}

/// A battery tag from the driver, or `None` when the driver returned the
/// invalid tag (no battery to talk to).
pub fn battery_tag(raw: u32) -> (r: Option<u32>)
    ensures
        raw == BATTERY_TAG_INVALID ==> r is None,
        raw != BATTERY_TAG_INVALID ==> r == Some(raw),
{
    if raw == BATTERY_TAG_INVALID {
        None
    } else {
        Some(raw)
    }
}

/// The reading described by a battery status record (`power_state`, `rate`,
/// `voltage`, `capacity`) and, when the information query succeeded, the
/// information record's full-charged capacity and capability flags.
///
/// Unknown sentinels become `None`; the rate is withheld when capacities are
/// relative, since it is then not in mW.
pub open spec fn spec_reading(
    power_state: u32,
    rate: i32,
    voltage: u32,
    capacity: u32,
    info: Option<(u32, u32)>,
) -> BatteryData {
    let relative = match info {
        Some(i) => (i.1 & BATTERY_CAPACITY_RELATIVE) != 0,
        None => false,
    };
    BatteryData {
        rate: if rate != BATTERY_UNKNOWN_RATE && !relative {
            Some(rate)
        } else {
            None
        },
        voltage: if voltage != BATTERY_UNKNOWN_VOLTAGE {
            Some(voltage)
        } else {
            None
        },
        capacity: if capacity != BATTERY_UNKNOWN_CAPACITY {
            Some(capacity)
        } else {
            None
        },
        full_capacity: match info {
            Some(i) => if i.0 != BATTERY_UNKNOWN_CAPACITY {
                Some(i.0)
            } else {
                None
            },
            None => None,
        },
        capacity_relative: relative,
        power_state,
        charging: (power_state & BATTERY_CHARGING) != 0,
        discharging: (power_state & BATTERY_DISCHARGING) != 0,
        power_online: (power_state & BATTERY_POWER_ON_LINE) != 0,
    }
}

/// Builds a reading from the raw status fields and the optional
/// `(full_charged_capacity, capabilities)` of the information record.
pub fn reading_from_status(
    power_state: u32,
    rate: i32,
    voltage: u32,
    capacity: u32,
    info: Option<(u32, u32)>,
) -> (r: BatteryData)
    ensures
        r == spec_reading(power_state, rate, voltage, capacity, info),
        r.charging == ((power_state & BATTERY_CHARGING) != 0),
        r.discharging == ((power_state & BATTERY_DISCHARGING) != 0),
        r.power_online == ((power_state & BATTERY_POWER_ON_LINE) != 0),
        r.power_state == power_state,
{
    let (full_capacity, capacity_relative) = match info {
        Some((full, caps)) => (
            if full != BATTERY_UNKNOWN_CAPACITY {
                Some(full)
            } else {
                None
            },
            (caps & BATTERY_CAPACITY_RELATIVE) != 0,
        ),
        None => (None, false),
    };
    BatteryData {
        rate: if rate != BATTERY_UNKNOWN_RATE && !capacity_relative {
            Some(rate)
        } else {
            None
        },
        voltage: if voltage != BATTERY_UNKNOWN_VOLTAGE {
            Some(voltage)
        } else {
            None
        },
        capacity: if capacity != BATTERY_UNKNOWN_CAPACITY {
            Some(capacity)
        } else {
            None
        },
        full_capacity,
        capacity_relative,
        power_state,
        charging: (power_state & BATTERY_CHARGING) != 0,
        discharging: (power_state & BATTERY_DISCHARGING) != 0,
        power_online: (power_state & BATTERY_POWER_ON_LINE) != 0,
    }
}

/// Each flag of a reading follows its own bit of the power state and no
/// other: charging the charging bit, discharging the discharging bit (also
/// on AC), AC power the on-line bit.
pub proof fn lemma_reading_flags_follow_their_bits(
    power_state: u32,
    rate: i32,
    voltage: u32,
    capacity: u32,
    info: Option<(u32, u32)>,
)
    ensures
        spec_reading(power_state, rate, voltage, capacity, info).charging <==> (power_state
            & BATTERY_CHARGING) != 0,
        spec_reading(power_state, rate, voltage, capacity, info).discharging <==> (power_state
            & BATTERY_DISCHARGING) != 0,
        spec_reading(power_state, rate, voltage, capacity, info).power_online <==> (power_state
            & BATTERY_POWER_ON_LINE) != 0,
        spec_reading(power_state, rate, voltage, capacity, info).power_state == power_state,
{
}

/// On AC and draining (power state 3), the reading is discharging and on AC,
/// and not charging; any other bits set besides do not change that.
pub proof fn lemma_draining_on_ac_is_discharging(
    power_state: u32,
    rate: i32,
    voltage: u32,
    capacity: u32,
    info: Option<(u32, u32)>,
)
    requires
        power_state & 3 == 3,
        power_state & BATTERY_CHARGING == 0,
    ensures
        spec_reading(power_state, rate, voltage, capacity, info).discharging,
        spec_reading(power_state, rate, voltage, capacity, info).power_online,
        !spec_reading(power_state, rate, voltage, capacity, info).charging,
{
    assert((power_state & 3 == 3) ==> (power_state & 2) != 0 && (power_state & 1) != 0) by (bit_vector);
}

/// Every measurement is either the raw value or, for the unknown sentinel,
/// absent; the rate is also absent when capacities are relative.
pub proof fn lemma_reading_values(
    power_state: u32,
    rate: i32,
    voltage: u32,
    capacity: u32,
    full: u32,
    caps: u32,
)
    ensures
        ({
            let r = spec_reading(power_state, rate, voltage, capacity, Some((full, caps)));
            &&& (r.rate == Some(rate) <==> (rate != BATTERY_UNKNOWN_RATE && (caps
                & BATTERY_CAPACITY_RELATIVE) == 0))
            &&& (r.rate is None <==> !(rate != BATTERY_UNKNOWN_RATE && (caps & BATTERY_CAPACITY_RELATIVE)
                == 0))
            &&& (r.voltage == Some(voltage) <==> voltage != BATTERY_UNKNOWN_VOLTAGE)
            &&& (r.voltage is None <==> voltage == BATTERY_UNKNOWN_VOLTAGE)
            &&& (r.capacity == Some(capacity) <==> capacity != BATTERY_UNKNOWN_CAPACITY)
            &&& (r.capacity is None <==> capacity == BATTERY_UNKNOWN_CAPACITY)
            &&& (r.full_capacity == Some(full) <==> full != BATTERY_UNKNOWN_CAPACITY)
            &&& (r.full_capacity is None <==> full == BATTERY_UNKNOWN_CAPACITY)
            &&& (r.capacity_relative <==> (caps & BATTERY_CAPACITY_RELATIVE) != 0)
        }),
        spec_reading(power_state, rate, voltage, capacity, None).full_capacity is None,
        !spec_reading(power_state, rate, voltage, capacity, None).capacity_relative,
        spec_reading(power_state, rate, voltage, capacity, None).rate == (if rate
            != BATTERY_UNKNOWN_RATE {
            Some(rate)
        } else {
            None::<i32>
        }),
{
}

} // verus!
