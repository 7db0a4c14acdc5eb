//! Events and the abstract button / axis vocabulary.
//!
//! An event is a value: once emitted it owns its data and keeps no reference
//! to the snapshot that produced it. Every event is paired with the slot
//! index of the device it came from.

use vstd::prelude::*;

use crate::axis::Normalized;
use crate::native_ev_codes::{
    AXIS_LEFTZ, AXIS_LSTICKX, AXIS_LSTICKY, AXIS_LT, AXIS_LT2, AXIS_RIGHTZ, AXIS_RSTICKX,
    AXIS_RSTICKY, AXIS_RT, AXIS_RT2, AXIS_DPADX, AXIS_DPADY, BTN_C, BTN_DPAD_DOWN, BTN_DPAD_LEFT,
    BTN_DPAD_RIGHT, BTN_DPAD_UP, BTN_EAST, BTN_LT, BTN_LT2, BTN_LTHUMB, BTN_MODE, BTN_NORTH,
    BTN_RT, BTN_RT2, BTN_RTHUMB, BTN_SELECT, BTN_SOUTH, BTN_START, BTN_WEST, BTN_Z,
};

verus! {

/// The shared abstract button vocabulary.
#[derive(Clone, Copy, Debug, PartialEq, Eq, Structural)]
pub enum Button {
    South,
    East,
    C,
    North,
    West,
    Z,
    LeftTrigger,
    RightTrigger,
    LeftTrigger2,
    RightTrigger2,
    Select,
    Start,
    Mode,
    LeftThumb,
    RightThumb,
    DPadUp,
    DPadDown,
    DPadLeft,
    DPadRight,
    Unknown,
}

/// The shared abstract axis vocabulary.
#[derive(Clone, Copy, Debug, PartialEq, Eq, Structural)]
pub enum Axis {
    LeftStickX,
    LeftStickY,
    LeftZ,
    RightStickX,
    RightStickY,
    RightZ,
    DPadX,
    DPadY,
    RightTrigger,
    LeftTrigger,
    RightTrigger2,
    LeftTrigger2,
    Unknown,
}

/// What happened on a device in one poll cycle.
#[derive(Clone, Copy, Debug, PartialEq, Eq, Structural)]
pub enum EventType {
    Connected,
    Disconnected,
    ButtonPressed(Button, u16),
    ButtonReleased(Button, u16),
    AxisChanged(Axis, Normalized, u16),
}

/// An event paired with the slot index of the device it came from.
#[derive(Clone, Copy, Debug, PartialEq, Eq, Structural)]
pub struct Event {
    pub id: usize,
    pub event: EventType,
}

impl Event {
    pub fn new(id: usize, event: EventType) -> (e: Event)
        ensures
            e.id == id,
            e.event == event,
    {
        Event { id, event }
    }
}

/// Whether an event reports a connection transition rather than input.
pub open spec fn spec_is_conn_event(e: EventType) -> bool {
    e is Connected || e is Disconnected
}

/// Whether an event reports a button transition.
pub open spec fn spec_is_button_event(e: EventType) -> bool {
    e is ButtonPressed || e is ButtonReleased
}

/// The abstract button a native button code stands for.
pub open spec fn spec_button_for(code: u16) -> Button {
    if code == BTN_SOUTH {
        Button::South
    } else if code == BTN_EAST {
        Button::East
    } else if code == BTN_C {
        Button::C
    } else if code == BTN_NORTH {
        Button::North
    } else if code == BTN_WEST {
        Button::West
    } else if code == BTN_Z {
        Button::Z
    } else if code == BTN_LT {
        Button::LeftTrigger
    } else if code == BTN_RT {
        Button::RightTrigger
    } else if code == BTN_LT2 {
        Button::LeftTrigger2
    } else if code == BTN_RT2 {
        Button::RightTrigger2
    } else if code == BTN_SELECT {
        Button::Select
    } else if code == BTN_START {
        Button::Start
    } else if code == BTN_MODE {
        Button::Mode
    } else if code == BTN_LTHUMB {
        Button::LeftThumb
    } else if code == BTN_RTHUMB {
        Button::RightThumb
    } else if code == BTN_DPAD_UP {
        Button::DPadUp
    } else if code == BTN_DPAD_DOWN {
        Button::DPadDown
    } else if code == BTN_DPAD_LEFT {
        Button::DPadLeft
    } else if code == BTN_DPAD_RIGHT {
        Button::DPadRight
    } else {
        Button::Unknown
    }
}

/// The abstract axis a native axis code stands for.
pub open spec fn spec_axis_for(code: u16) -> Axis {
    if code == AXIS_LSTICKX {
        Axis::LeftStickX
    } else if code == AXIS_LSTICKY {
        Axis::LeftStickY
    } else if code == AXIS_LEFTZ {
        Axis::LeftZ
    } else if code == AXIS_RSTICKX {
        Axis::RightStickX
    } else if code == AXIS_RSTICKY {
        Axis::RightStickY
    } else if code == AXIS_RIGHTZ {
        Axis::RightZ
    } else if code == AXIS_DPADX {
        Axis::DPadX
    } else if code == AXIS_DPADY {
        Axis::DPadY
    } else if code == AXIS_RT {
        Axis::RightTrigger
    } else if code == AXIS_LT {
        Axis::LeftTrigger
    } else if code == AXIS_RT2 {
        Axis::RightTrigger2
    } else if code == AXIS_LT2 {
        Axis::LeftTrigger2
    } else {
        Axis::Unknown
    }
}

/// Runtime lookup of `spec_button_for`.
pub fn button_for(code: u16) -> (r: Button)
    ensures
        r == spec_button_for(code),
{
    if code == BTN_SOUTH {
        Button::South
    } else if code == BTN_EAST {
        Button::East
    } else if code == BTN_C {
        Button::C
    } else if code == BTN_NORTH {
        Button::North
    } else if code == BTN_WEST {
        Button::West
    } else if code == BTN_Z {
        Button::Z
    } else if code == BTN_LT {
        Button::LeftTrigger
    } else if code == BTN_RT {
        Button::RightTrigger
    } else if code == BTN_LT2 {
        Button::LeftTrigger2
    } else if code == BTN_RT2 {
        Button::RightTrigger2
    } else if code == BTN_SELECT {
        Button::Select
    } else if code == BTN_START {
        Button::Start
    } else if code == BTN_MODE {
        Button::Mode
    } else if code == BTN_LTHUMB {
        Button::LeftThumb
    } else if code == BTN_RTHUMB {
        Button::RightThumb
    } else if code == BTN_DPAD_UP {
        Button::DPadUp
    } else if code == BTN_DPAD_DOWN {
        Button::DPadDown
    } else if code == BTN_DPAD_LEFT {
        Button::DPadLeft
    } else if code == BTN_DPAD_RIGHT {
        Button::DPadRight
    } else {
        Button::Unknown
    }
}

/// Runtime lookup of `spec_axis_for`.
pub fn axis_for(code: u16) -> (r: Axis)
    ensures
        r == spec_axis_for(code),
{
    if code == AXIS_LSTICKX {
        Axis::LeftStickX
    } else if code == AXIS_LSTICKY {
        Axis::LeftStickY
    } else if code == AXIS_LEFTZ {
        Axis::LeftZ
    } else if code == AXIS_RSTICKX {
        Axis::RightStickX
    } else if code == AXIS_RSTICKY {
        Axis::RightStickY
    } else if code == AXIS_RIGHTZ {
        Axis::RightZ
    } else if code == AXIS_DPADX {
        Axis::DPadX
    } else if code == AXIS_DPADY {
        Axis::DPadY
    } else if code == AXIS_RT {
        Axis::RightTrigger
    } else if code == AXIS_LT {
        Axis::LeftTrigger
    } else if code == AXIS_RT2 {
        Axis::RightTrigger2
    } else if code == AXIS_LT2 {
        Axis::LeftTrigger2
    } else {
        Axis::Unknown
    }
}

} // verus!
