//! Free fall: a body that is airborne keeps the time it has spent in the air
//! and asks, each frame, for a downward displacement that grows with that time.
use vstd::prelude::*;

use crate::geom::MICROS;

verus! {

/// Vertical displacement (micro-units) that free fall asks for in a frame of
/// `dt` microseconds, given the time already spent airborne: `-fall_rate *
/// airborne * dt`, in units of seconds and world units, rounded toward zero.
/// A body that is not airborne asks for nothing.
pub open spec fn fall_dy(falling: Option<u64>, dt: u32, fall_rate: u32) -> int {
    match falling {
        Some(t) => -((fall_rate * t * dt) / (MICROS as int)),
        None => 0,
    }
}

/// The airborne time after a frame of `dt` microseconds: it grows by `dt`
/// (held at the largest `u64` rather than wrapping), and stays absent for a
/// body that is not airborne.
pub open spec fn falling_after_frame(falling: Option<u64>, dt: u32) -> Option<u64> {
    match falling {
        Some(t) => Some(
            if t + dt > u64::MAX {
                u64::MAX
            } else {
                (t + dt) as u64
            },
        ),
        None => None,
    }
}

/// The airborne time once the sweep's contact flag is known: removed on
/// contact, started at zero on leaving the ground, otherwise kept.
pub open spec fn falling_after_sweep(falling: Option<u64>, grounded: bool) -> Option<u64> {
    if grounded {
        None
    } else {
        match falling {
            Some(t) => Some(t),
            None => Some(0u64),
        }
    }
}

/// The free-fall contribution to this frame's displacement, computed from the
/// airborne time before it advances.
pub fn fall_contribution(falling: Option<u64>, dt: u32, fall_rate: u32) -> (dy: i128)
    ensures
        dy == fall_dy(falling, dt, fall_rate),
        -(i128::MAX / 2) <= dy <= 0,
{
    match falling {
        Some(t) => {
            let r = fall_rate as u128;
            let a = t as u128;
            let d = dt as u128;
            assert(r * a <= (u32::MAX as int) * (u64::MAX as int)) by (nonlinear_arith)
                requires
                    r <= u32::MAX,
                    a <= u64::MAX,
            ;
            let ra = r * a;
            assert(ra * d <= (u32::MAX as int) * (u64::MAX as int) * (u32::MAX as int))
                by (nonlinear_arith)
                requires
                    ra <= (u32::MAX as int) * (u64::MAX as int),
                    d <= u32::MAX,
            ;
            let product = ra * d;
            let q = product / (MICROS as u128);
            assert(q <= i128::MAX / 2) by (nonlinear_arith)
                requires
                    q == product / 1_000_000,
                    product <= (u32::MAX as int) * (u64::MAX as int) * (u32::MAX as int),
            ;
            -(q as i128)
        },
        None => 0,
    }
}

/// Advances the airborne time by one frame of `dt` microseconds.
pub fn advance_falling(falling: Option<u64>, dt: u32) -> (r: Option<u64>)
    ensures
        r == falling_after_frame(falling, dt),
{
    match falling {
        Some(t) => Some(t.saturating_add(dt as u64)),
        None => None,
    }
}

/// Updates the airborne time from the contact flag of the frame's sweep.
pub fn settle_falling(falling: Option<u64>, grounded: bool) -> (r: Option<u64>)
    ensures
        r == falling_after_sweep(falling, grounded),
        r.is_some() == !grounded,
        r matches Some(t) ==> t >= 0,
{
    if grounded {
        None
    } else {
        match falling {
            Some(t) => Some(t),
            None => Some(0),
        }
    }
}

} // verus!
