//! Per-device identity and capability data.
//!
//! A `Gamepad` carries what a consumer may query of one device slot: name,
//! 128-bit identifier (zero when the hardware exposes none), slot binding,
//! connection status, force-feedback capability and the code table. The
//! placeholder returned for out-of-range and never-observed lookups is a
//! `Gamepad` too, with neutral identity, so callers never special-case a
//! missing device.

use vstd::prelude::*;
use vstd::string::StringExecFns;

use crate::axis::AxisInfo;
use crate::lifecycle::Status;
use crate::native_ev_codes::{
    axes_table, axis_info_of, buttons_table, spec_axes, spec_axis_info, spec_buttons,
};

verus! {

/// Power status of a device, as far as the hardware reports it.
#[derive(Clone, Copy, Debug, PartialEq, Eq, Structural)]
pub enum PowerInfo {
    Unknown,
    Wired,
    /// Discharging at the given percentage of capacity.
    Discharging(u8),
    Charged,
}

// Battery vocabulary of this backend's hardware reports.
pub const BATTERY_TYPE_WIRED: u8 = 1;
pub const BATTERY_TYPE_ALKALINE: u8 = 2;
pub const BATTERY_TYPE_NIMH: u8 = 3;

pub const BATTERY_LEVEL_EMPTY: u8 = 0;
pub const BATTERY_LEVEL_LOW: u8 = 1;
pub const BATTERY_LEVEL_MEDIUM: u8 = 2;
pub const BATTERY_LEVEL_FULL: u8 = 3;

/// How a raw battery report maps to a power status. `None` stands for a
/// failed battery query. A battery type or level outside the reported
/// vocabulary degrades to `Unknown`; nothing in this core ever fails fatally
/// on malformed raw data.
pub open spec fn spec_power_info(battery: Option<(u8, u8)>) -> PowerInfo {
    match battery {
        None => PowerInfo::Unknown,
        Some((ty, level)) => if ty == BATTERY_TYPE_WIRED {
            PowerInfo::Wired
        } else if ty == BATTERY_TYPE_ALKALINE || ty == BATTERY_TYPE_NIMH {
            if level == BATTERY_LEVEL_EMPTY {
                PowerInfo::Discharging(0u8)
            } else if level == BATTERY_LEVEL_LOW {
                PowerInfo::Discharging(33u8)
            } else if level == BATTERY_LEVEL_MEDIUM {
                PowerInfo::Discharging(67u8)
            } else if level == BATTERY_LEVEL_FULL {
                PowerInfo::Charged
            } else {
                PowerInfo::Unknown
            }
        } else {
            PowerInfo::Unknown
        },
    }
}

/// One device slot's identity and capabilities.
pub struct Gamepad {
    pub name: String,
    /// 128-bit identifier; zero when the hardware exposes none.
    pub uuid: u128,
    /// The slot the device is bound to; assigned once, never reassigned.
    pub id: u32,
    pub status: Status,
    pub ff_supported: bool,
    pub max_ff: usize,
}

impl Gamepad {
    /// Neutral identity: empty name, zero identifier, never-observed status,
    /// no force feedback and no effect slots.
    pub open spec fn is_placeholder(self) -> bool {
        &&& self.name@ == Seq::<char>::empty()
        &&& self.uuid == 0
        &&& self.id == u32::MAX
        &&& self.status is NotObserved
        &&& !self.ff_supported
        &&& self.max_ff == 0
    }

    /// The shared placeholder device handed out for slots that never held
    /// hardware.
    pub fn none() -> (g: Gamepad)
        ensures
            g.is_placeholder(),
    {
        Gamepad {
            name: String::new(),
            uuid: 0,
            id: u32::MAX,
            status: Status::NotObserved,
            ff_supported: false,
            max_ff: 0,
        }
    }

    pub fn name(&self) -> (r: &String)
        ensures
            r@ == self.name@,
    {
        &self.name
    }

    pub fn uuid(&self) -> (r: u128)
        ensures
            r == self.uuid,
    {
        self.uuid
    }

    pub fn status(&self) -> (r: Status)
        ensures
            r == self.status,
    {
        self.status
    }

    pub fn max_ff_effects(&self) -> (r: usize)
        ensures
            r == self.max_ff,
    {
        self.max_ff
    }

    pub fn is_ff_supported(&self) -> (r: bool)
        ensures
            r == self.ff_supported,
    {
        self.ff_supported
    }

    /// This backend exposes no gain control; the call changes nothing.
    #[allow(unused_variables)]
    pub fn set_ff_gain(&mut self, gain: u16)
        ensures
            *final(self) == *old(self),
    {
    }

    /// Maps a raw battery report (type, level) onto a power status; `None`
    /// stands for a failed battery query.
    pub fn power_info(&self, battery: Option<(u8, u8)>) -> (r: PowerInfo)
        ensures
            r == spec_power_info(battery),
    {
        match battery {
            None => PowerInfo::Unknown,
            Some((ty, level)) => {
                if ty == BATTERY_TYPE_WIRED {
                    PowerInfo::Wired
                } else if ty == BATTERY_TYPE_ALKALINE || ty == BATTERY_TYPE_NIMH {
                    if level == BATTERY_LEVEL_EMPTY {
                        PowerInfo::Discharging(0)
                    } else if level == BATTERY_LEVEL_LOW {
                        PowerInfo::Discharging(33)
                    } else if level == BATTERY_LEVEL_MEDIUM {
                        PowerInfo::Discharging(67)
                    } else if level == BATTERY_LEVEL_FULL {
                        PowerInfo::Charged
                    } else {
                        PowerInfo::Unknown
                    }
                } else {
                    PowerInfo::Unknown
                }
            },
        }
    }

    /// The button codes this device exposes, in declared table order.
    pub fn buttons(&self) -> (r: Vec<u16>)
        ensures
            r@ == spec_buttons(),
    {
        buttons_table()
    }

    /// The axis codes this device exposes, in declared table order.
    pub fn axes(&self) -> (r: Vec<u16>)
        ensures
            r@ == spec_axes(),
    {
        axes_table()
    }

    /// The calibration data of an axis code, when the table has any.
    pub fn axis_info(&self, nec: u16) -> (r: Option<AxisInfo>)
        ensures
            r == spec_axis_info(nec),
            r matches Some(info) ==> info.wf(),
    {
        axis_info_of(nec)
    }
}

/// A hardware-backed device slot: fixed backend label as name, no exposed
/// identifier, force feedback supported but no effect-slot count reported.
pub fn gamepad_new(id: u32, connected: bool) -> (g: Gamepad)
    ensures
        g.name@ == "Xbox Controller"@,
        g.uuid == 0,
        g.id == id,
        g.status == (if connected {
            Status::Connected
        } else {
            Status::NotObserved
        }),
        g.ff_supported,
        g.max_ff == 0,
{
    Gamepad {
        name: String::from_str("Xbox Controller"),
        uuid: 0,
        id,
        status: if connected {
            Status::Connected
        } else {
            Status::NotObserved
        },
        ff_supported: true,
        max_ff: 0,
    }
}

} // verus!
