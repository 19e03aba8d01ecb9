//! The jump state machine: an edge-triggered jump that lifts the actor at a
//! constant rate until the collision sweep shows contact or a vertical-only
//! obstruction.
use vstd::prelude::*;

use crate::geom::{lemma_rate_times_dt_fits, SweepResult};

verus! {

#[derive(Clone, Copy, Debug, PartialEq, Eq, Structural)]
pub enum JumpState {
    Grounded,
    Jumping,
}

/// The jump key went from released to held.
pub open spec fn newly_pressed(held_before: bool, held_now: bool) -> bool {
    held_now && !held_before
}

/// A jump starts on a new press, while the last sweep showed contact and no
/// jump is under way.
pub open spec fn jump_starts(state: JumpState, last: Option<SweepResult>, pressed: bool) -> bool {
    &&& pressed
    &&& state == JumpState::Grounded
    &&& last matches Some(s) && s.grounded
}

/// A sweep ends a jump when it shows contact, or when only its vertical
/// component was cut short (the horizontal one went through unchanged).
pub open spec fn ends_jump(s: SweepResult) -> bool {
    s.grounded || (s.desired.y != s.effective.y && s.desired.x == s.effective.x)
}

/// Upward displacement (micro-units) of a frame of `dt` microseconds.
pub open spec fn jump_dy(state: JumpState, dt: u32, jump_rate: u32) -> int {
    match state {
        JumpState::Jumping => jump_rate * dt,
        JumpState::Grounded => 0,
    }
}

/// The state after the jump input of a frame has been seen.
pub fn try_start(state: JumpState, last: Option<SweepResult>, pressed: bool) -> (r: JumpState)
    ensures
        r == (if jump_starts(state, last, pressed) {
            JumpState::Jumping
        } else {
            state
        }),
{
    match last {
        Some(s) => if pressed && s.grounded && state == JumpState::Grounded {
            JumpState::Jumping
        } else {
            state
        },
        None => state,
    }
}

/// Whether a sweep ends a jump under way.
pub fn sweep_ends_jump(s: &SweepResult) -> (r: bool)
    ensures
        r == ends_jump(*s),
{
    s.grounded || (s.desired.y != s.effective.y && s.desired.x == s.effective.x)
}

/// The state after a frame's sweep result is known.
pub fn after_sweep(state: JumpState, s: &SweepResult) -> (r: JumpState)
    ensures
        r == (if ends_jump(*s) {
            JumpState::Grounded
        } else {
            state
        }),
{
    if sweep_ends_jump(s) {
        JumpState::Grounded
    } else {
        state
    }
}

/// The jump's contribution to a frame's vertical displacement.
pub fn jump_contribution(state: JumpState, dt: u32, jump_rate: u32) -> (dy: i128)
    ensures
        dy == jump_dy(state, dt, jump_rate),
        0 <= dy <= u64::MAX,
{
    match state {
        JumpState::Jumping => {
            proof {
                lemma_rate_times_dt_fits(jump_rate, dt);
            }
            (jump_rate as u64 * dt as u64) as i128
        },
        JumpState::Grounded => 0,
    }
}

} // verus!
