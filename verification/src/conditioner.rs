//! Integer stage of the signal conditioner: deadzone and normalisation.
//!
//! A conditioned axis is kept as the numerator of a fraction over
//! [`AXIS_SCALE`], so that every statement here is exact. Smoothing works
//! on the quotient and is left to the caller.

use vstd::prelude::*;

verus! {

/// Number of axes of the device.
pub const AXIS_COUNT: usize = 6;

/// Raw magnitude that maps to a full-scale axis value.
pub const AXIS_SCALE: i16 = 350;

/// Raw readings whose magnitude is at most this are treated as rest.
pub const AXIS_DEADZONE: i16 = 3;

/// A reading after the deadzone: zero inside the band, unchanged outside.
pub open spec fn deadzone_of(v: int) -> int {
    if -(AXIS_DEADZONE as int) <= v <= AXIS_DEADZONE as int {
        0
    } else {
        v
    }
}

/// The normalised target of a raw reading, as a numerator over
/// [`AXIS_SCALE`]: the deadzone first, then the clamp to full scale.
pub open spec fn target_of(v: int) -> int {
    let d = deadzone_of(v);
    if d < -(AXIS_SCALE as int) {
        -(AXIS_SCALE as int)
    } else if d > AXIS_SCALE as int {
        AXIS_SCALE as int
    } else {
        d
    }
}

/// One conditioned sample: per axis the numerator of the normalised target
/// over [`AXIS_SCALE`], and the button bitmask as delivered.
#[derive(Clone, Copy, Debug, PartialEq, Eq)]
pub struct AxisTarget {
    pub axes: [i16; 6],
    pub buttons: u32,
}

impl AxisTarget {
    /// What conditioning `raw` and `buttons` yields.
    pub open spec fn conditions(self, raw: [i16; 6], buttons: u32) -> bool {
        &&& self.buttons == buttons
        &&& forall|i: int| 0 <= i < 6 ==> #[trigger] self.axes[i] as int == target_of(raw[i] as int)
    }

    /// Every axis at rest and no button held.
    pub open spec fn is_rest(self) -> bool {
        &&& self.buttons == 0
        &&& forall|i: int| 0 <= i < 6 ==> #[trigger] self.axes[i] == 0
    }

    /// The sample at rest, which is published on deactivation.
    pub fn rest() -> (r: AxisTarget)
        ensures
            r.is_rest(),
    {
        AxisTarget { axes: [0, 0, 0, 0, 0, 0], buttons: 0 }
    }
}

/// Suppresses sensor jitter at rest: a reading inside the deadzone becomes
/// zero, any other is returned as it is.
pub fn deadzone(v: i16) -> (r: i16)
    ensures
        r as int == deadzone_of(v as int),
{
    if -AXIS_DEADZONE <= v && v <= AXIS_DEADZONE {
        0
    } else {
        v
    }
}

/// Deadzone, then clamp to full scale, for one axis.
pub fn normalize(v: i16) -> (r: i16)
    ensures
        r as int == target_of(v as int),
        -AXIS_SCALE <= r <= AXIS_SCALE,
{
    let d: i16 = deadzone(v);
    if d < -AXIS_SCALE {
        -AXIS_SCALE
    } else if d > AXIS_SCALE {
        AXIS_SCALE
    } else {
        d
    }
}

/// Conditions one raw sample: each axis through the deadzone and the clamp,
/// the buttons unchanged.
pub fn dispatch_axes(raw: [i16; 6], buttons: u32) -> (r: AxisTarget)
    ensures
        r.conditions(raw, buttons),
        forall|i: int| 0 <= i < 6 ==> -AXIS_SCALE <= #[trigger] r.axes[i] <= AXIS_SCALE,
{
    let mut axes: [i16; 6] = [0, 0, 0, 0, 0, 0];
    let mut i: usize = 0;
    while i < 6
        invariant
            0 <= i <= 6,
            forall|j: int| 0 <= j < i ==> #[trigger] axes[j] as int == target_of(raw[j] as int),
            forall|j: int| 0 <= j < i ==> -AXIS_SCALE <= #[trigger] axes[j] <= AXIS_SCALE,
        decreases 6 - i,
    {
        axes[i] = normalize(raw[i]);
        i += 1;
    }
    AxisTarget { axes, buttons }
}

/// A reading inside the deadzone has a target of exactly zero.
pub proof fn lemma_deadzone_target_is_zero(v: int)
    requires
        -(AXIS_DEADZONE as int) <= v <= AXIS_DEADZONE as int,
    ensures
        target_of(v) == 0,
{
}

/// A sample whose every axis lies inside the deadzone conditions to rest
/// on all axes.
pub proof fn lemma_rest_sample_conditions_to_zero(raw: [i16; 6], buttons: u32, t: AxisTarget)
    requires
        t.conditions(raw, buttons),
        forall|i: int| 0 <= i < 6 ==> -AXIS_DEADZONE <= #[trigger] raw[i] <= AXIS_DEADZONE,
    ensures
        forall|i: int| 0 <= i < 6 ==> #[trigger] t.axes[i] == 0,
{
    assert forall|i: int| 0 <= i < 6 implies #[trigger] t.axes[i] == 0 by {
        lemma_deadzone_target_is_zero(raw[i] as int);
    }
}

/// The target of any reading lies within full scale, and reaches it exactly
/// at a reading of full scale.
pub proof fn lemma_target_within_scale(v: int)
    ensures
        -(AXIS_SCALE as int) <= target_of(v) <= AXIS_SCALE as int,
        v >= AXIS_SCALE as int ==> target_of(v) == AXIS_SCALE as int,
        v <= -(AXIS_SCALE as int) ==> target_of(v) == -(AXIS_SCALE as int),
{
}

} // verus!
