//! Properties of the movement rules over one frame and over whole
//! trajectories, stated over the spec functions of `Actor`.
use vstd::prelude::*;

use crate::actor::{Actor, Config, FrameEvent};
use crate::fall::fall_dy;
use crate::jump::{jump_starts, newly_pressed, JumpState};
use crate::walk::Keys;

verus! {

/// The actor after the frames of `frames`, in order.
pub open spec fn run(a: Actor, frames: Seq<FrameEvent>) -> Actor
    decreases frames.len(),
{
    if frames.len() == 0 {
        a
    } else {
        run(a, frames.drop_last()).step(frames.last())
    }
}

/// Whether the jump key was held in the frame before frame `i` of `frames`.
pub open spec fn held_before(a: Actor, frames: Seq<FrameEvent>, i: int) -> bool {
    if i == 0 {
        a.jump_held
    } else {
        frames[i - 1].keys.jump
    }
}

/// While a jump is under way, pressing the jump key again changes nothing:
/// the state stays `Jumping` and the frame's vertical request holds the jump's
/// rise exactly once.
pub proof fn lemma_press_while_jumping(a: Actor, keys: Keys, dt: u32, cfg: Config)
    requires
        a.jump == JumpState::Jumping,
    ensures
        a.planned(keys, dt).jump == JumpState::Jumping,
        a.planned_dy(keys, dt, cfg) == a.planned_dy(Keys { jump: !keys.jump, ..keys }, dt, cfg),
        a.planned_dy(keys, dt, cfg) == cfg.jump_rate * dt + fall_dy(a.falling, dt, cfg.fall_rate),
{
}

/// A new press of the jump key while the last sweep showed contact and no
/// jump is under way starts a jump.
pub proof fn lemma_press_on_ground_starts_jump(a: Actor, keys: Keys, dt: u32)
    requires
        a.jump == JumpState::Grounded,
        a.last_sweep matches Some(s) && s.grounded,
        newly_pressed(a.jump_held, keys.jump),
    ensures
        a.planned(keys, dt).jump == JumpState::Jumping,
{
}

/// Over one frame the airborne time is dropped on contact, starts at zero
/// when the actor leaves the ground, and otherwise grows by the frame time.
pub proof fn lemma_step_falling(a: Actor, e: FrameEvent)
    requires
        a.wf(),
    ensures
        a.step(e).wf(),
        e.sweep.grounded ==> a.step(e).falling is None,
        !e.sweep.grounded && a.falling is None ==> a.step(e).falling == Some(0u64),
        a.falling matches Some(t) ==> (!e.sweep.grounded ==> a.step(e).falling == Some(
            if t + e.dt > u64::MAX {
                u64::MAX
            } else {
                (t + e.dt) as u64
            },
        )),
{
}

/// Every state of every trajectory from a well-formed actor is well formed:
/// the airborne time is present exactly when the last sweep showed no
/// contact.
pub proof fn lemma_trajectory_well_formed(a: Actor, frames: Seq<FrameEvent>)
    requires
        a.wf(),
    ensures
        run(a, frames).wf(),
        run(a, frames).last_sweep matches Some(s) && s.grounded ==> run(a, frames).falling is None,
    decreases frames.len(),
{
    if frames.len() > 0 {
        lemma_trajectory_well_formed(a, frames.drop_last());
        lemma_step_falling(run(a, frames.drop_last()), frames.last());
    }
}

/// Frames of zero length that report no motion and the contact of the last
/// sweep, and in which no new press of the jump key could start a jump.
pub open spec fn idle_zero_time_frames(a: Actor, frames: Seq<FrameEvent>) -> bool {
    &&& a.last_sweep is Some
    &&& forall|i: int|
        0 <= i < frames.len() ==> {
            &&& (#[trigger] frames[i]).dt == 0
            &&& frames[i].sweep.desired.x == 0 && frames[i].sweep.desired.y == 0
            &&& frames[i].sweep.effective.x == 0 && frames[i].sweep.effective.y == 0
            &&& frames[i].sweep.grounded == a.last_sweep->0.grounded
            &&& !jump_starts(
                a.jump,
                a.last_sweep,
                newly_pressed(held_before(a, frames, i), frames[i].keys.jump),
            )
        }
}

proof fn lemma_zero_time_prefix(a: Actor, frames: Seq<FrameEvent>, n: int)
    requires
        a.wf(),
        idle_zero_time_frames(a, frames),
        0 <= n <= frames.len(),
    ensures
        run(a, frames.take(n)).jump == a.jump,
        run(a, frames.take(n)).falling == a.falling,
        run(a, frames.take(n)).position == a.position,
        run(a, frames.take(n)).jump_held == held_before(a, frames, n),
        run(a, frames.take(n)).last_sweep matches Some(s) && s.grounded
            == a.last_sweep->0.grounded,
    decreases n,
{
    if n == 0 {
        assert(frames.take(0) =~= Seq::<FrameEvent>::empty());
    } else {
        lemma_zero_time_prefix(a, frames, n - 1);
        assert(frames.take(n).drop_last() =~= frames.take(n - 1));
        assert(frames.take(n).last() == frames[n - 1]);
        let e = frames[n - 1];
        assert(e.dt == 0);
    }
}

/// Frames of zero length request no displacement and change neither the jump
/// state, nor the airborne time, nor the position, however many of them
/// follow one another. This holds of frames whose sweep reports no motion and
/// the same contact as before, and in which no new press of the jump key
/// starts a jump.
pub proof fn lemma_zero_time_frames_change_nothing(
    a: Actor,
    frames: Seq<FrameEvent>,
    cfg: Config,
)
    requires
        a.wf(),
        idle_zero_time_frames(a, frames),
    ensures
        forall|i: int|
            0 <= i < frames.len() ==> run(a, frames.take(i)).planned_dx(
                (#[trigger] frames[i]).keys,
                frames[i].dt,
                cfg,
            ) == 0 && run(a, frames.take(i)).planned_dy(frames[i].keys, frames[i].dt, cfg) == 0,
        run(a, frames).jump == a.jump,
        run(a, frames).falling == a.falling,
        run(a, frames).position == a.position,
{
    assert forall|i: int| 0 <= i < frames.len() implies run(a, frames.take(i)).planned_dx(
        (#[trigger] frames[i]).keys,
        frames[i].dt,
        cfg,
    ) == 0 && run(a, frames.take(i)).planned_dy(frames[i].keys, frames[i].dt, cfg) == 0 by {
        lemma_zero_time_prefix(a, frames, i);
        let b = run(a, frames.take(i));
        assert(!jump_starts(b.jump, b.last_sweep, newly_pressed(b.jump_held, frames[i].keys.jump)));
        assert(b.planned_jump(frames[i].keys) == a.jump);
    }
    lemma_zero_time_prefix(a, frames, frames.len() as int);
    assert(frames.take(frames.len() as int) =~= frames);
}

} // verus!
