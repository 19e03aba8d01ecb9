//! Horizontal locomotion: held direction keys become a horizontal
//! displacement and a facing.
use vstd::prelude::*;

use crate::geom::lemma_rate_times_dt_fits;

verus! {

/// The direction the actor faces.
#[derive(Clone, Copy, Debug, PartialEq, Eq, Structural)]
pub enum Facing {
    Left,
    Right,
}

/// The keys held during one frame.
#[derive(Clone, Copy, Debug, PartialEq, Eq, Structural)]
pub struct Keys {
    pub left: bool,
    pub right: bool,
    pub jump: bool,
}

impl Keys {
    /// No key held.
    pub fn none() -> (k: Keys)
        ensures
            !k.left && !k.right && !k.jump,
    {
        Keys { left: false, right: false, jump: false }
    }
}

/// Horizontal displacement (micro-units) for a frame of `dt` microseconds at
/// `speed` world units per second: right wins over left, nothing when neither
/// is held.
pub open spec fn walk_dx(keys: Keys, dt: u32, speed: u32) -> int {
    if keys.right {
        speed * dt
    } else if keys.left {
        -(speed * dt)
    } else {
        0
    }
}

/// The facing after a frame: replaced by the direction walked, else kept.
pub open spec fn facing_after(facing: Facing, keys: Keys) -> Facing {
    if keys.right {
        Facing::Right
    } else if keys.left {
        Facing::Left
    } else {
        facing
    }
}

/// Returns this frame's horizontal displacement and turns `facing` toward the
/// direction walked.
pub fn walk(keys: Keys, dt: u32, speed: u32, facing: &mut Facing) -> (dx: i128)
    ensures
        dx == walk_dx(keys, dt, speed),
        -(u64::MAX as int) <= dx <= u64::MAX,
        *final(facing) == facing_after(*old(facing), keys),
{
    proof {
        lemma_rate_times_dt_fits(speed, dt);
    }
    let step = speed as u64 * dt as u64;
    if keys.right {
        *facing = Facing::Right;
        step as i128
    } else if keys.left {
        *facing = Facing::Left;
        -(step as i128)
    } else {
        0
    }
}

} // verus!
