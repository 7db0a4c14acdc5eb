//! Device state snapshots.
//!
//! A snapshot captures one instant of a controller's raw state: the button
//! word (one bit per hardware button) and one raw integer reading per axis
//! code. A snapshot is taken whole every poll cycle; the differ compares two
//! of them and never mutates either.

use vstd::prelude::*;

use crate::native_ev_codes::AXIS_CODE_COUNT;

verus! {

/// One instant of a controller's raw state.
pub struct Snapshot {
    /// The raw button word; `spec_button_mask` says which bit carries which
    /// button code.
    pub buttons: u16,
    /// Raw axis readings, indexed by native axis code; always
    /// `AXIS_CODE_COUNT` entries.
    pub axes: Vec<i32>,
}

impl Snapshot {
    /// The axis store has one reading per axis code.
    pub open spec fn wf(self) -> bool {
        self.axes@.len() == AXIS_CODE_COUNT
    }

    /// The raw reading of an axis code.
    pub open spec fn spec_axis(self, code: u16) -> i32
        recommends
            (code as int) < AXIS_CODE_COUNT,
    {
        self.axes@[code as int]
    }

    /// Whether the button bit selected by `mask` is set.
    pub open spec fn spec_button(self, mask: u16) -> bool {
        self.buttons & mask != 0
    }

    pub fn new(buttons: u16, axes: Vec<i32>) -> (s: Snapshot)
        requires
            axes@.len() == AXIS_CODE_COUNT,
        ensures
            s.wf(),
            s.buttons == buttons,
            s.axes@ == axes@,
    {
        Snapshot { buttons, axes }
    }

    /// The all-zero snapshot: no button set, every axis at zero. It is the
    /// baseline a tracker starts from.
    pub fn zeroed() -> (s: Snapshot)
        ensures
            s.wf(),
            s.buttons == 0,
            forall|i: int| 0 <= i < AXIS_CODE_COUNT ==> s.axes@[i] == 0,
    {
        let mut axes: Vec<i32> = Vec::new();
        let mut i: usize = 0;
        while i < AXIS_CODE_COUNT
            invariant
                i <= AXIS_CODE_COUNT,
                axes@.len() == i,
                forall|k: int| 0 <= k < i ==> axes@[k] == 0,
            decreases AXIS_CODE_COUNT - i,
        {
            axes.push(0);
            i = i + 1;
        }
        Snapshot { buttons: 0, axes }
    }

    /// The raw reading of an axis code.
    pub fn axis_value(&self, code: u16) -> (r: i32)
        requires
            self.wf(),
            (code as int) < AXIS_CODE_COUNT,
        ensures
            r == self.spec_axis(code),
    {
        self.axes[code as usize]
    }

    /// Whether the button bit selected by `mask` is set.
    pub fn button_pressed(&self, mask: u16) -> (r: bool)
        ensures
            r == self.spec_button(mask),
    {
        self.buttons & mask != 0
    }
}

} // verus!
