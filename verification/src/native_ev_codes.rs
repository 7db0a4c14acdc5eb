//! The native event code table.
//!
//! A closed, fixed numbering of button and axis identifiers. The numbers are
//! a stable public contract: external callers may persist them, so they never
//! change. The module also carries, per axis code, the calibration data of
//! this backend's hardware, and the mapping from a button code to its bit in
//! the raw button word of a snapshot.

use vstd::prelude::*;

use crate::axis::AxisInfo;

verus! {

pub const BTN_SOUTH: u16 = 0;
pub const BTN_EAST: u16 = 1;
pub const BTN_C: u16 = 2;
pub const BTN_NORTH: u16 = 3;
pub const BTN_WEST: u16 = 4;
pub const BTN_Z: u16 = 5;
pub const BTN_LT: u16 = 6;
pub const BTN_RT: u16 = 7;
pub const BTN_LT2: u16 = 8;
pub const BTN_RT2: u16 = 9;
pub const BTN_SELECT: u16 = 10;
pub const BTN_START: u16 = 11;
pub const BTN_MODE: u16 = 12;
pub const BTN_LTHUMB: u16 = 13;
pub const BTN_RTHUMB: u16 = 14;

pub const BTN_DPAD_UP: u16 = 15;
pub const BTN_DPAD_DOWN: u16 = 16;
pub const BTN_DPAD_LEFT: u16 = 17;
pub const BTN_DPAD_RIGHT: u16 = 18;

pub const AXIS_LSTICKX: u16 = 0;
pub const AXIS_LSTICKY: u16 = 1;
pub const AXIS_LEFTZ: u16 = 2;
pub const AXIS_RSTICKX: u16 = 3;
pub const AXIS_RSTICKY: u16 = 4;
pub const AXIS_RIGHTZ: u16 = 5;
pub const AXIS_DPADX: u16 = 6;
pub const AXIS_DPADY: u16 = 7;
pub const AXIS_RT: u16 = 8;
pub const AXIS_LT: u16 = 9;
pub const AXIS_RT2: u16 = 10;
pub const AXIS_LT2: u16 = 11;

/// Number of distinct axis codes; a snapshot stores one raw reading per code.
pub const AXIS_CODE_COUNT: usize = 12;

/// Length of the declared button table.
pub const BUTTON_TABLE_LEN: usize = 15;

/// Length of the declared axis table.
pub const AXIS_TABLE_LEN: usize = 6;

// Bits of the raw button word, as this backend's hardware reports it.
pub const MASK_DPAD_UP: u16 = 0x0001;
pub const MASK_DPAD_DOWN: u16 = 0x0002;
pub const MASK_DPAD_LEFT: u16 = 0x0004;
pub const MASK_DPAD_RIGHT: u16 = 0x0008;
pub const MASK_START: u16 = 0x0010;
pub const MASK_SELECT: u16 = 0x0020;
pub const MASK_LTHUMB: u16 = 0x0040;
pub const MASK_RTHUMB: u16 = 0x0080;
pub const MASK_LSHOULDER: u16 = 0x0100;
pub const MASK_RSHOULDER: u16 = 0x0200;
pub const MASK_SOUTH: u16 = 0x1000;
pub const MASK_EAST: u16 = 0x2000;
pub const MASK_WEST: u16 = 0x4000;
pub const MASK_NORTH: u16 = 0x8000;

// Calibration constants of this backend's hardware.
pub const LEFT_THUMB_DEADZONE: u32 = 7849;
pub const RIGHT_THUMB_DEADZONE: u32 = 8689;
pub const TRIGGER_THRESHOLD: u32 = 30;

pub const STICK_MIN: i32 = -32768;
pub const STICK_MAX: i32 = 32767;
pub const TRIGGER_MIN: i32 = 0;
pub const TRIGGER_MAX: i32 = 255;

/// The declared button table: the button codes this backend exposes, in the
/// order the differ walks them.
pub open spec fn spec_buttons() -> Seq<u16> {
    seq![
        BTN_SOUTH,
        BTN_EAST,
        BTN_NORTH,
        BTN_WEST,
        BTN_LT,
        BTN_RT,
        BTN_SELECT,
        BTN_START,
        BTN_MODE,
        BTN_LTHUMB,
        BTN_RTHUMB,
        BTN_DPAD_UP,
        BTN_DPAD_DOWN,
        BTN_DPAD_LEFT,
        BTN_DPAD_RIGHT,
    ]
}

/// The declared axis table: the axis codes this backend exposes, in the
/// order the differ walks them.
pub open spec fn spec_axes() -> Seq<u16> {
    seq![AXIS_LSTICKX, AXIS_LSTICKY, AXIS_RSTICKX, AXIS_RSTICKY, AXIS_RT2, AXIS_LT2]
}

/// The bit of the raw button word that carries a button code's state.
/// A code the hardware does not report (among them `BTN_MODE`) has no bit,
/// so its state never differs between snapshots.
pub open spec fn spec_button_mask(code: u16) -> u16 {
    if code == BTN_SOUTH {
        MASK_SOUTH
    } else if code == BTN_EAST {
        MASK_EAST
    } else if code == BTN_NORTH {
        MASK_NORTH
    } else if code == BTN_WEST {
        MASK_WEST
    } else if code == BTN_LT {
        MASK_LSHOULDER
    } else if code == BTN_RT {
        MASK_RSHOULDER
    } else if code == BTN_SELECT {
        MASK_SELECT
    } else if code == BTN_START {
        MASK_START
    } else if code == BTN_LTHUMB {
        MASK_LTHUMB
    } else if code == BTN_RTHUMB {
        MASK_RTHUMB
    } else if code == BTN_DPAD_UP {
        MASK_DPAD_UP
    } else if code == BTN_DPAD_DOWN {
        MASK_DPAD_DOWN
    } else if code == BTN_DPAD_LEFT {
        MASK_DPAD_LEFT
    } else if code == BTN_DPAD_RIGHT {
        MASK_DPAD_RIGHT
    } else {
        0
    }
}

/// Per-axis calibration: sticks are signed 16-bit with a thumb deadzone,
/// triggers are unsigned 8-bit with the trigger threshold as deadzone.
/// Axis codes this backend does not calibrate have no entry.
pub open spec fn spec_axis_info(code: u16) -> Option<AxisInfo> {
    if code == AXIS_LSTICKX || code == AXIS_LSTICKY {
        Some(AxisInfo { min: STICK_MIN, max: STICK_MAX, deadzone: LEFT_THUMB_DEADZONE })
    } else if code == AXIS_RSTICKX || code == AXIS_RSTICKY {
        Some(AxisInfo { min: STICK_MIN, max: STICK_MAX, deadzone: RIGHT_THUMB_DEADZONE })
    } else if code == AXIS_RT2 || code == AXIS_LT2 {
        Some(AxisInfo { min: TRIGGER_MIN, max: TRIGGER_MAX, deadzone: TRIGGER_THRESHOLD })
    } else {
        None
    }
}

/// Every calibration entry of the table is well formed, and every tabled
/// axis code indexes a snapshot's axis store.
pub proof fn lemma_table_wf()
    ensures
        forall|code: u16| #[trigger] spec_axis_info(code) matches Some(info) ==> info.wf(),
        forall|i: int|
            0 <= i < spec_axes().len() ==> (#[trigger] spec_axes()[i] as int) < AXIS_CODE_COUNT,
{
}

/// The declared button table, as a vector.
pub fn buttons_table() -> (r: Vec<u16>)
    ensures
        r@ == spec_buttons(),
{
    let mut v: Vec<u16> = Vec::new();
    v.push(BTN_SOUTH);
    v.push(BTN_EAST);
    v.push(BTN_NORTH);
    v.push(BTN_WEST);
    v.push(BTN_LT);
    v.push(BTN_RT);
    v.push(BTN_SELECT);
    v.push(BTN_START);
    v.push(BTN_MODE);
    v.push(BTN_LTHUMB);
    v.push(BTN_RTHUMB);
    v.push(BTN_DPAD_UP);
    v.push(BTN_DPAD_DOWN);
    v.push(BTN_DPAD_LEFT);
    v.push(BTN_DPAD_RIGHT);
    proof {
        assert(v@ =~= spec_buttons());
    }
    v
}

/// The declared axis table, as a vector.
pub fn axes_table() -> (r: Vec<u16>)
    ensures
        r@ == spec_axes(),
{
    let mut v: Vec<u16> = Vec::new();
    v.push(AXIS_LSTICKX);
    v.push(AXIS_LSTICKY);
    v.push(AXIS_RSTICKX);
    v.push(AXIS_RSTICKY);
    v.push(AXIS_RT2);
    v.push(AXIS_LT2);
    proof {
        assert(v@ =~= spec_axes());
    }
    v
}

/// Runtime lookup of `spec_button_mask`.
pub fn button_mask(code: u16) -> (r: u16)
    ensures
        r == spec_button_mask(code),
{
    if code == BTN_SOUTH {
        MASK_SOUTH
    } else if code == BTN_EAST {
        MASK_EAST
    } else if code == BTN_NORTH {
        MASK_NORTH
    } else if code == BTN_WEST {
        MASK_WEST
    } else if code == BTN_LT {
        MASK_LSHOULDER
    } else if code == BTN_RT {
        MASK_RSHOULDER
    } else if code == BTN_SELECT {
        MASK_SELECT
    } else if code == BTN_START {
        MASK_START
    } else if code == BTN_LTHUMB {
        MASK_LTHUMB
    } else if code == BTN_RTHUMB {
        MASK_RTHUMB
    } else if code == BTN_DPAD_UP {
        MASK_DPAD_UP
    } else if code == BTN_DPAD_DOWN {
        MASK_DPAD_DOWN
    } else if code == BTN_DPAD_LEFT {
        MASK_DPAD_LEFT
    } else if code == BTN_DPAD_RIGHT {
        MASK_DPAD_RIGHT
    } else {
        0
    }
}

/// Runtime lookup of `spec_axis_info`.
pub fn axis_info_of(code: u16) -> (r: Option<AxisInfo>)
    ensures
        r == spec_axis_info(code),
        r matches Some(info) ==> info.wf(),
{
    if code == AXIS_LSTICKX || code == AXIS_LSTICKY {
        Some(AxisInfo { min: STICK_MIN, max: STICK_MAX, deadzone: LEFT_THUMB_DEADZONE })
    } else if code == AXIS_RSTICKX || code == AXIS_RSTICKY {
        Some(AxisInfo { min: STICK_MIN, max: STICK_MAX, deadzone: RIGHT_THUMB_DEADZONE })
    } else if code == AXIS_RT2 || code == AXIS_LT2 {
        Some(AxisInfo { min: TRIGGER_MIN, max: TRIGGER_MAX, deadzone: TRIGGER_THRESHOLD })
    } else {
        None
    }
}

} // verus!
