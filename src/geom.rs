use vstd::prelude::*;

verus! {

/// Number of micro-units in one world unit, and of microseconds in one second.
pub const MICROS: u64 = 1_000_000;

/// A rate held in a `u32` times a frame length held in a `u32` fits in a `u64`.
pub proof fn lemma_rate_times_dt_fits(rate: u32, dt: u32)
    ensures
        0 <= rate * dt <= u64::MAX,
{
    assert(0 <= rate * dt <= (u32::MAX as int) * (u32::MAX as int)) by (nonlinear_arith)
        requires
            rate <= u32::MAX,
            dt <= u32::MAX,
    ;
}

/// A 2D vector in micro-units.
#[derive(Clone, Copy, Debug, PartialEq, Eq, Structural)]
pub struct Vec2 {
    pub x: i128,
    pub y: i128,
}

impl Vec2 {
    pub fn zero() -> (r: Vec2)
        ensures
            r.x == 0 && r.y == 0,
    {
        Vec2 { x: 0, y: 0 }
    }

    pub fn new(x: i128, y: i128) -> (r: Vec2)
        ensures
            r.x == x && r.y == y,
    {
        Vec2 { x, y }
    }
}

/// `a + b`, clamped to the range of `i128`.
pub open spec fn saturating_sum(a: i128, b: i128) -> i128 {
    if a + b > i128::MAX {
        i128::MAX
    } else if a + b < i128::MIN {
        i128::MIN
    } else {
        (a + b) as i128
    }
}

pub fn saturating_add_i128(a: i128, b: i128) -> (r: i128)
    ensures
        r == saturating_sum(a, b),
{
    match a.checked_add(b) {
        Some(s) => s,
        None => if b > 0 {
            i128::MAX
        } else {
            i128::MIN
        },
    }
}

impl Vec2 {
    /// Componentwise sum, each component clamped to the range of `i128`.
    pub fn saturating_add(self, o: Vec2) -> (r: Vec2)
        ensures
            r.x == saturating_sum(self.x, o.x),
            r.y == saturating_sum(self.y, o.y),
    {
        Vec2 { x: saturating_add_i128(self.x, o.x), y: saturating_add_i128(self.y, o.y) }
    }
}

/// What the collision sweep reports for one frame: the displacement that was
/// asked for, the one that could actually be applied, and whether the actor's
/// lower edge rests on a surface afterwards.
#[derive(Clone, Copy, Debug, PartialEq, Eq, Structural)]
pub struct SweepResult {
    pub desired: Vec2,
    pub effective: Vec2,
    pub grounded: bool,
}

} // verus!
