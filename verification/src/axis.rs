//! Axis calibration and normalization.
//!
//! A raw axis reading is an integer from the hardware. Normalization maps it
//! onto the unit range: `[-1, 1]` for centered axes (sticks), `[0, 1]` for
//! unidirectional axes (triggers). The normalized value is kept exactly, as a
//! fraction of two integers, so every statement about it is exact; a consumer
//! that wants a float divides the two fields.

use vstd::prelude::*;

verus! {

/// Calibration data for one axis: the inclusive raw-value bounds that define
/// the unit-range mapping, and the deadzone radius around the rest position.
#[derive(Clone, Copy, Debug, PartialEq, Eq, Structural)]
pub struct AxisInfo {
    pub min: i32,
    pub max: i32,
    pub deadzone: u32,
}

impl AxisInfo {
    /// The bounds are ordered and the deadzone is smaller than the raw span.
    pub open spec fn wf(self) -> bool {
        &&& self.min < self.max
        &&& (self.deadzone as int) < self.max - self.min
    }
}

/// A centered axis has its rest position strictly inside the raw range
/// (a stick); otherwise the axis is unidirectional (a trigger), with its
/// rest position at `min`.
pub open spec fn spec_centered(info: AxisInfo) -> bool {
    info.min < 0 && 0 < info.max
}

/// A normalized axis reading, kept exactly: the value is the fraction
/// `num / den`, with `den > 0`. For a centered axis it lies in `[-1, 1]`,
/// for a unidirectional axis in `[0, 1]` (see `lemma_normalize_bounded`).
#[derive(Clone, Copy, Debug, PartialEq, Eq, Structural)]
pub struct Normalized {
    pub num: i64,
    pub den: i64,
}

impl Normalized {
    /// The denominator is positive.
    pub open spec fn wf(self) -> bool {
        0 < self.den
    }
}

/// What `normalize` returns: for a centered axis the raw value is divided by
/// `max` when non-negative and by `-min` when negative, so that both extremes
/// map to exactly plus and minus one even when `|min| != max`; for a
/// unidirectional axis the reading is offset by `min` and divided by the span.
pub open spec fn spec_normalize(raw: i32, info: AxisInfo) -> Normalized {
    if spec_centered(info) {
        if raw >= 0 {
            Normalized { num: raw as i64, den: info.max as i64 }
        } else {
            Normalized { num: raw as i64, den: (-(info.min as int)) as i64 }
        }
    } else {
        Normalized {
            num: (raw as int - info.min as int) as i64,
            den: (info.max as int - info.min as int) as i64,
        }
    }
}

/// Maps a raw reading onto the unit range. Total over all of `i32`:
/// readings outside `[min, max]` are mapped by the same ratio and may fall
/// outside the unit range.
pub fn normalize(raw: i32, info: &AxisInfo) -> (r: Normalized)
    requires
        info.wf(),
    ensures
        r == spec_normalize(raw, *info),
        r.wf(),
{
    if info.min < 0 && 0 < info.max {
        if raw >= 0 {
            Normalized { num: raw as i64, den: info.max as i64 }
        } else {
            Normalized { num: raw as i64, den: -(info.min as i64) }
        }
    } else {
        Normalized { num: (raw as i64) - (info.min as i64), den: (info.max as i64) - (info.min as i64) }
    }
}

/// Whether a raw reading rests inside the axis's deadzone: its magnitude
/// from the rest position - the center for a centered axis, `min` for a
/// unidirectional one - is at most `deadzone`. The radius is inclusive.
pub open spec fn spec_in_deadzone(raw: i32, info: AxisInfo) -> bool {
    if spec_centered(info) {
        -(info.deadzone as int) <= raw as int <= info.deadzone as int
    } else {
        -(info.deadzone as int) <= raw as int - info.min as int <= info.deadzone as int
    }
}

/// Runtime test of `spec_in_deadzone`.
pub fn in_deadzone(raw: i32, info: &AxisInfo) -> (r: bool)
    ensures
        r == spec_in_deadzone(raw, *info),
{
    let rawl: i64 = raw as i64;
    let dz: i64 = info.deadzone as i64;
    if info.min < 0 && 0 < info.max {
        -dz <= rawl && rawl <= dz
    } else {
        let d: i64 = rawl - (info.min as i64);
        -dz <= d && d <= dz
    }
}

/// Normalization boundedness: every raw value within `[min, max]` maps into
/// the unit range; the extreme readings map to exactly plus and minus one
/// (centered) or exactly zero and one (unidirectional), and the center of a
/// centered axis maps to exactly zero.
pub proof fn lemma_normalize_bounded(raw: i32, info: AxisInfo)
    requires
        info.wf(),
        info.min <= raw <= info.max,
    ensures
        spec_normalize(raw, info).wf(),
        -spec_normalize(raw, info).den <= spec_normalize(raw, info).num
            <= spec_normalize(raw, info).den,
        !spec_centered(info) ==> 0 <= spec_normalize(raw, info).num,
        raw == info.max ==> spec_normalize(raw, info).num == spec_normalize(raw, info).den,
        spec_centered(info) && raw == info.min ==> spec_normalize(raw, info).num
            == -spec_normalize(raw, info).den,
        !spec_centered(info) && raw == info.min ==> spec_normalize(raw, info).num == 0,
        spec_centered(info) && raw == 0 ==> spec_normalize(raw, info).num == 0,
{
}

} // verus!
