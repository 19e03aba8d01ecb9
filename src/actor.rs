//! The player actor and the frame orchestration around the collision sweep.
//!
//! A frame has two halves. `plan_frame` reads the keys and the frame time and
//! returns the displacement to request: walking first, then the jump, then
//! free fall. The caller submits it to the collision sweep once and hands the
//! result to `apply_sweep`, which moves the actor and updates the jump and
//! free-fall state for the next frame.
use vstd::prelude::*;

use crate::fall::{
    advance_falling, fall_contribution, fall_dy, falling_after_frame, falling_after_sweep,
    settle_falling,
};
use crate::geom::{saturating_sum, SweepResult, Vec2};
use crate::jump::{
    after_sweep, ends_jump, jump_contribution, jump_dy, jump_starts, newly_pressed, try_start,
    JumpState,
};
use crate::walk::{facing_after, walk, walk_dx, Facing, Keys};

verus! {

/// Walking speed of the player, in world units per second.
pub const PLAYER_SPEED: u32 = 700;

/// Free-fall rate, in world units per second squared.
pub const FALL_RATE: u32 = 3000;

/// Rise rate of a jump, in world units per second.
pub const JUMP_RATE: u32 = 1300;

/// The movement constants.
#[derive(Clone, Copy, Debug, PartialEq, Eq, Structural)]
pub struct Config {
    pub speed: u32,
    pub jump_rate: u32,
    pub fall_rate: u32,
}

impl Config {
    /// The player's constants.
    pub fn standard() -> (c: Config)
        ensures
            c.speed == PLAYER_SPEED,
            c.jump_rate == JUMP_RATE,
            c.fall_rate == FALL_RATE,
    {
        Config { speed: PLAYER_SPEED, jump_rate: JUMP_RATE, fall_rate: FALL_RATE }
    }
}

/// The player: where it is, where it faces, its jump state, the time it has
/// been airborne (absent while on the ground), whether the jump key was held
/// last frame, and the last sweep result.
#[derive(Clone, Copy, Debug, PartialEq, Eq, Structural)]
pub struct Actor {
    pub position: Vec2,
    pub facing: Facing,
    pub jump: JumpState,
    pub falling: Option<u64>,
    pub jump_held: bool,
    pub last_sweep: Option<SweepResult>,
}

/// One frame as seen from outside: the keys held, its length in
/// microseconds, and what the collision sweep reported.
#[derive(Clone, Copy, Debug, PartialEq, Eq, Structural)]
pub struct FrameEvent {
    pub keys: Keys,
    pub dt: u32,
    pub sweep: SweepResult,
}

impl Actor {
    /// Between frames: before any sweep the actor neither jumps nor falls;
    /// afterwards it has an airborne time exactly when the last sweep showed
    /// no contact, and a jump under way only when it showed none.
    pub open spec fn wf(self) -> bool {
        match self.last_sweep {
            None => self.falling is None && self.jump == JumpState::Grounded,
            Some(s) => {
                &&& (self.falling is Some <==> !s.grounded)
                &&& (self.jump == JumpState::Jumping ==> !s.grounded)
            },
        }
    }

    /// The jump state once this frame's keys have been seen.
    pub open spec fn planned_jump(self, keys: Keys) -> JumpState {
        if jump_starts(self.jump, self.last_sweep, newly_pressed(self.jump_held, keys.jump)) {
            JumpState::Jumping
        } else {
            self.jump
        }
    }

    /// Horizontal displacement requested in a frame.
    pub open spec fn planned_dx(self, keys: Keys, dt: u32, cfg: Config) -> int {
        walk_dx(keys, dt, cfg.speed)
    }

    /// Vertical displacement requested in a frame: the jump's, plus free
    /// fall's from the airborne time before it advances.
    pub open spec fn planned_dy(self, keys: Keys, dt: u32, cfg: Config) -> int {
        jump_dy(self.planned_jump(keys), dt, cfg.jump_rate) + fall_dy(
            self.falling,
            dt,
            cfg.fall_rate,
        )
    }

    /// The actor once a frame's displacement has been planned.
    pub open spec fn planned(self, keys: Keys, dt: u32) -> Actor {
        Actor {
            facing: facing_after(self.facing, keys),
            jump: self.planned_jump(keys),
            falling: falling_after_frame(self.falling, dt),
            jump_held: keys.jump,
            ..self
        }
    }

    /// The actor once a sweep result has been applied.
    pub open spec fn swept(self, s: SweepResult) -> Actor {
        Actor {
            position: Vec2 {
                x: saturating_sum(self.position.x, s.effective.x),
                y: saturating_sum(self.position.y, s.effective.y),
            },
            jump: if ends_jump(s) {
                JumpState::Grounded
            } else {
                self.jump
            },
            falling: falling_after_sweep(self.falling, s.grounded),
            last_sweep: Some(s),
            ..self
        }
    }

    /// One whole frame.
    pub open spec fn step(self, e: FrameEvent) -> Actor {
        self.planned(e.keys, e.dt).swept(e.sweep)
    }

    /// A new actor at `position`, facing right, neither jumping nor falling.
    pub fn new(position: Vec2) -> (a: Actor)
        ensures
            a.position == position,
            a.facing == Facing::Right,
            a.jump == JumpState::Grounded,
            a.falling is None,
            !a.jump_held,
            a.last_sweep is None,
            a.wf(),
    {
        Actor {
            position,
            facing: Facing::Right,
            jump: JumpState::Grounded,
            falling: None,
            jump_held: false,
            last_sweep: None,
        }
    }

    /// Plans a frame of `dt` microseconds with `keys` held, and returns the
    /// displacement to submit to the collision sweep.
    pub fn plan_frame(&mut self, keys: Keys, dt: u32, cfg: &Config) -> (d: Vec2)
        ensures
            *final(self) == old(self).planned(keys, dt),
            d.x == old(self).planned_dx(keys, dt, *cfg),
            d.y == old(self).planned_dy(keys, dt, *cfg),
            jump_starts(old(self).jump, old(self).last_sweep, newly_pressed(old(self).jump_held, keys.jump))
                ==> final(self).jump == JumpState::Jumping,
            old(self).jump == JumpState::Jumping ==> final(self).jump == JumpState::Jumping,
            final(self).jump == JumpState::Jumping ==> d.y == cfg.jump_rate * dt + fall_dy(
                old(self).falling,
                dt,
                cfg.fall_rate,
            ),
    {
        let mut facing = self.facing;
        let dx = walk(keys, dt, cfg.speed, &mut facing);
        let pressed = keys.jump && !self.jump_held;
        let jump = try_start(self.jump, self.last_sweep, pressed);
        let rise = jump_contribution(jump, dt, cfg.jump_rate);
        let fall = fall_contribution(self.falling, dt, cfg.fall_rate);
        self.facing = facing;
        self.jump = jump;
        self.falling = advance_falling(self.falling, dt);
        self.jump_held = keys.jump;
        Vec2 { x: dx, y: rise + fall }
    }

    /// Applies the frame's sweep result: moves the actor by the effective
    /// displacement, ends a jump on contact or on a vertical-only
    /// obstruction, and starts, keeps or drops the airborne time.
    pub fn apply_sweep(&mut self, sweep: SweepResult)
        ensures
            *final(self) == old(self).swept(sweep),
            final(self).wf(),
            sweep.grounded ==> final(self).falling is None,
            !sweep.grounded && old(self).falling is None ==> final(self).falling == Some(0u64),
            sweep.desired.y != sweep.effective.y && sweep.desired.x == sweep.effective.x
                ==> final(self).jump == JumpState::Grounded,
    {
        self.position = self.position.saturating_add(sweep.effective);
        self.jump = after_sweep(self.jump, &sweep);
        self.falling = settle_falling(self.falling, sweep.grounded);
        self.last_sweep = Some(sweep);
    }
}

} // verus!
