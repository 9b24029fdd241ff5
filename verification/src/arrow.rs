//! Core of the arrow overlay: keeps only the latest pointer delta and
//! classifies its magnitude for the sprite's scale.
//!
//! The sprite's scale factor is `sqrt(dx*dx + dy*dy) / SCALE_DIV`, clamped
//! asymmetrically: raised to exactly `1` when below `1`, and forced to
//! exactly `SCALE_MAX` when above `SCALE_CEIL`.  Both clamp tests are exact
//! integer comparisons on the squared magnitude, so the classification is
//! verified here and only the square root of the unclamped middle band is
//! left to the display layer.  The rotation angle is likewise the display
//! layer's trigonometry; it reads the deltas this module maintains.

use vstd::prelude::*;

verus! {

/// Divisor of the delta magnitude in the scale factor.
pub const SCALE_DIV: i64 = 5;

/// Raw factors above this threshold are forced to [`SCALE_MAX`].
pub const SCALE_CEIL: i64 = 4;

/// The forced scale for factors above [`SCALE_CEIL`].
pub const SCALE_MAX: i64 = 5;

/// Squared magnitude below which the raw factor is under `1`:
/// `(1 * SCALE_DIV)^2`.
pub const FLOOR_SQ: i128 = 25;

/// Squared magnitude above which the raw factor is over [`SCALE_CEIL`]:
/// `(SCALE_CEIL * SCALE_DIV)^2`.
pub const CEIL_SQ: i128 = 400;

/// Where a delta's magnitude falls relative to the two clamp thresholds.
#[derive(Clone, Copy, Debug, PartialEq, Eq, Structural)]
pub enum ScaleClass {
    /// Raw factor below `1`: the sprite scale is exactly `1`.
    Floor,
    /// Raw factor in the unclamped band: the scale is
    /// `sqrt(dx*dx + dy*dy) / SCALE_DIV`.
    Raw,
    /// Raw factor above [`SCALE_CEIL`]: the scale is exactly [`SCALE_MAX`].
    Ceiling,
}

/// Squared magnitude of a delta.
pub open spec fn sq_mag(dx: int, dy: int) -> int {
    dx * dx + dy * dy
}

/// The clamp classification as a function of the delta alone.
pub open spec fn scale_class_spec(dx: int, dy: int) -> ScaleClass {
    let m = sq_mag(dx, dy);
    if m < FLOOR_SQ {
        ScaleClass::Floor
    } else if m > CEIL_SQ {
        ScaleClass::Ceiling
    } else {
        ScaleClass::Raw
    }
}

/// Squared magnitude of a delta, exactly.
pub fn delta_sq_mag(dx: i64, dy: i64) -> (m: i128)
    requires
        -0x1_0000_0000 <= dx <= 0x1_0000_0000,
        -0x1_0000_0000 <= dy <= 0x1_0000_0000,
    ensures
        m == sq_mag(dx as int, dy as int),
{
    proof {
        assert(dx * dx <= 0x1_0000_0000_0000_0000) by (nonlinear_arith)
            requires -0x1_0000_0000 <= dx <= 0x1_0000_0000;
        assert(dy * dy <= 0x1_0000_0000_0000_0000) by (nonlinear_arith)
            requires -0x1_0000_0000 <= dy <= 0x1_0000_0000;
        assert(dx * dx >= 0) by (nonlinear_arith);
        assert(dy * dy >= 0) by (nonlinear_arith);
    }
    (dx as i128) * (dx as i128) + (dy as i128) * (dy as i128)
}

/// Classifies the latest delta against the scale-clamp thresholds.
pub fn scale_class(dx: i64, dy: i64) -> (c: ScaleClass)
    requires
        -0x1_0000_0000 <= dx <= 0x1_0000_0000,
        -0x1_0000_0000 <= dy <= 0x1_0000_0000,
    ensures
        c == scale_class_spec(dx as int, dy as int),
{
    let m = delta_sq_mag(dx, dy);
    if m < FLOOR_SQ as i128 {
        ScaleClass::Floor
    } else if m > CEIL_SQ as i128 {
        ScaleClass::Ceiling
    } else {
        ScaleClass::Raw
    }
}

/// The sprite scale in tenths where the clamp pins it exactly: `10` for a
/// floored factor, `10 * SCALE_MAX` for a forced one, and nothing for the
/// unclamped band, whose value is the display layer's square root.
pub fn clamped_scale_tenths(c: ScaleClass) -> (t: Option<u64>)
    ensures
        c == ScaleClass::Floor ==> t == Some(10u64),
        c == ScaleClass::Ceiling ==> t == Some(50u64),
        c == ScaleClass::Raw ==> t == None::<u64>,
{
    match c {
        ScaleClass::Floor => Some(10),
        ScaleClass::Ceiling => Some(50),
        ScaleClass::Raw => None,
    }
}

/// The latest absolute pointer position and the delta to the one before.
pub struct PointerTracker {
    /// Last observed absolute x position.
    pub x: i32,
    /// Last observed absolute y position.
    pub y: i32,
    /// Previous position's x minus the latest x.
    pub delta_x: i64,
    /// Previous position's y minus the latest y.
    pub delta_y: i64,
}

impl PointerTracker {
    /// The deltas a tracker can ever hold: differences of two `i32`
    /// positions.
    pub open spec fn wf(&self) -> bool {
        &&& -0x1_0000_0000 < self.delta_x < 0x1_0000_0000
        &&& -0x1_0000_0000 < self.delta_y < 0x1_0000_0000
    }

    /// A tracker at the origin with no recorded motion.
    pub fn new() -> (t: PointerTracker)
        ensures
            t.wf(),
            t == (PointerTracker { x: 0, y: 0, delta_x: 0, delta_y: 0 }),
    {
        PointerTracker { x: 0, y: 0, delta_x: 0, delta_y: 0 }
    }

    /// Feeds one absolute position: an unchanged position leaves the
    /// tracker untouched, a changed one records it and the delta from the
    /// previous position.
    pub fn observe(&mut self, x: i32, y: i32)
        requires
            old(self).wf(),
        ensures
            final(self).wf(),
            (x == old(self).x && y == old(self).y) ==> *final(self) == *old(self),
            (x != old(self).x || y != old(self).y) ==> {
                &&& final(self).x == x
                &&& final(self).y == y
                &&& final(self).delta_x == old(self).x - x
                &&& final(self).delta_y == old(self).y - y
            },
    {
        if self.x != x || self.y != y {
            self.delta_x = self.x as i64 - x as i64;
            self.delta_y = self.y as i64 - y as i64;
            self.x = x;
            self.y = y;
        }
    }
}

} // verus!
