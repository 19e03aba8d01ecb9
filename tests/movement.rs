use platformer::fall::{advance_falling, fall_contribution, settle_falling};
use platformer::jump::{after_sweep, jump_contribution, sweep_ends_jump, try_start};
use platformer::walk::walk;
use platformer::{
    solid_tiles, Actor, Config, Facing, JumpState, Keys, SweepResult, Vec2, FALL_RATE, JUMP_RATE,
    PLAYER_SPEED,
};

const FRAME_16MS: u32 = 16_000;
const FRAME_100MS: u32 = 100_000;

fn keys(left: bool, right: bool, jump: bool) -> Keys {
    Keys { left, right, jump }
}

/// What a sweep through empty space reports: everything requested applied.
fn free_sweep(d: Vec2, grounded: bool) -> SweepResult {
    SweepResult { desired: d, effective: d, grounded }
}

/// An actor that has already seen one sweep with the given contact.
fn settled(grounded: bool) -> Actor {
    let mut a = Actor::new(Vec2::zero());
    let c = Config::standard();
    let d = a.plan_frame(Keys::none(), 0, &c);
    a.apply_sweep(free_sweep(d, grounded));
    a
}

#[test]
fn at_rest_on_ground_requests_nothing() {
    let mut a = settled(true);
    let c = Config::standard();
    let d = a.plan_frame(Keys::none(), FRAME_16MS, &c);
    assert_eq!(d, Vec2::new(0, 0));
    a.apply_sweep(free_sweep(d, true));
    assert_eq!(a.jump, JumpState::Grounded);
    assert_eq!(a.falling, None);
    assert_eq!(a.position, Vec2::new(0, 0));
}

#[test]
fn walking_right_ten_frames_requests_112_units() {
    let mut a = settled(true);
    let c = Config::standard();
    assert_eq!(c.speed, 700);
    let mut total: i128 = 0;
    for _ in 0..10 {
        let d = a.plan_frame(keys(false, true, false), FRAME_16MS, &c);
        assert_eq!(d.x, 11_200_000);
        total += d.x;
        a.apply_sweep(free_sweep(d, true));
    }
    assert_eq!(total, 112_000_000);
    assert_eq!(a.position.x, 112_000_000);
    assert_eq!(a.facing, Facing::Right);
}

#[test]
fn airborne_three_frames_accelerates() {
    let mut a = settled(false);
    assert_eq!(a.falling, Some(0));
    let c = Config { speed: PLAYER_SPEED, jump_rate: JUMP_RATE, fall_rate: 3000 };
    let mut seen = Vec::new();
    let mut dys = Vec::new();
    for _ in 0..3 {
        seen.push(a.falling);
        let d = a.plan_frame(Keys::none(), FRAME_100MS, &c);
        dys.push(d.y);
        a.apply_sweep(free_sweep(d, false));
    }
    assert_eq!(seen, vec![Some(0), Some(100_000), Some(200_000)]);
    assert_eq!(dys, vec![0, -30_000_000, -60_000_000]);
    assert_eq!(a.falling, Some(300_000));
}

#[test]
fn leaving_the_ground_starts_airborne_time_at_zero() {
    let mut a = settled(true);
    assert_eq!(a.falling, None);
    let c = Config::standard();
    let d = a.plan_frame(Keys::none(), FRAME_16MS, &c);
    a.apply_sweep(free_sweep(d, false));
    assert_eq!(a.falling, Some(0));
    let d = a.plan_frame(Keys::none(), FRAME_16MS, &c);
    a.apply_sweep(free_sweep(d, true));
    assert_eq!(a.falling, None);
}

#[test]
fn new_press_on_ground_starts_jump() {
    let mut a = settled(true);
    let c = Config::standard();
    let d = a.plan_frame(keys(false, false, true), FRAME_16MS, &c);
    assert_eq!(a.jump, JumpState::Jumping);
    assert_eq!(d.y, 1300 * 16_000);
    a.apply_sweep(free_sweep(d, false));
    assert_eq!(a.jump, JumpState::Jumping);
}

#[test]
fn held_jump_key_does_not_retrigger() {
    let mut a = settled(true);
    let c = Config::standard();
    let d = a.plan_frame(keys(false, false, true), FRAME_16MS, &c);
    // The sweep lands the actor again: the jump ends.
    a.apply_sweep(free_sweep(d, true));
    assert_eq!(a.jump, JumpState::Grounded);
    // Still held: not a new press.
    let d = a.plan_frame(keys(false, false, true), FRAME_16MS, &c);
    assert_eq!(a.jump, JumpState::Grounded);
    assert_eq!(d.y, 0);
    a.apply_sweep(free_sweep(d, true));
    // Released, then pressed again: a new jump.
    let d = a.plan_frame(Keys::none(), FRAME_16MS, &c);
    a.apply_sweep(free_sweep(d, true));
    a.plan_frame(keys(false, false, true), FRAME_16MS, &c);
    assert_eq!(a.jump, JumpState::Jumping);
}

#[test]
fn pressing_again_while_jumping_adds_nothing() {
    let mut a = settled(true);
    let c = Config::standard();
    let d = a.plan_frame(keys(false, false, true), FRAME_16MS, &c);
    a.apply_sweep(free_sweep(d, false));
    let d = a.plan_frame(Keys::none(), FRAME_16MS, &c);
    a.apply_sweep(free_sweep(d, false));
    let mut b = a;
    let held = a.plan_frame(Keys::none(), FRAME_16MS, &c);
    let pressed = b.plan_frame(keys(false, false, true), FRAME_16MS, &c);
    assert_eq!(a.jump, JumpState::Jumping);
    assert_eq!(b.jump, JumpState::Jumping);
    assert_eq!(held.y, pressed.y);
    // Rise of 1300 * 0.016 = 20.8 units, less the fall after 16 ms airborne.
    assert_eq!(held.y, 20_800_000 - 3000 * 16_000 * 16_000 / 1_000_000);
}

#[test]
fn jump_needs_contact_in_last_sweep() {
    let mut a = settled(false);
    let c = Config::standard();
    a.plan_frame(keys(false, false, true), FRAME_16MS, &c);
    assert_eq!(a.jump, JumpState::Grounded);
    let mut fresh = Actor::new(Vec2::zero());
    fresh.plan_frame(keys(false, false, true), FRAME_16MS, &c);
    assert_eq!(fresh.jump, JumpState::Grounded);
}

#[test]
fn vertical_only_obstruction_ends_jump_in_mid_air() {
    let mut a = settled(true);
    let c = Config::standard();
    let d = a.plan_frame(keys(false, false, true), FRAME_16MS, &c);
    a.apply_sweep(free_sweep(d, false));
    assert_eq!(a.jump, JumpState::Jumping);
    let d = a.plan_frame(keys(false, true, true), FRAME_16MS, &c);
    let blocked = SweepResult { desired: d, effective: Vec2::new(d.x, 0), grounded: false };
    a.apply_sweep(blocked);
    assert_eq!(a.jump, JumpState::Grounded);
    assert_eq!(a.position.y, 20_800_000);
}

#[test]
fn sideways_and_vertical_obstruction_keeps_jump() {
    let mut a = settled(true);
    let c = Config::standard();
    let d = a.plan_frame(keys(false, false, true), FRAME_16MS, &c);
    a.apply_sweep(free_sweep(d, false));
    let d = a.plan_frame(keys(false, true, false), FRAME_16MS, &c);
    let blocked = SweepResult { desired: d, effective: Vec2::new(0, 0), grounded: false };
    a.apply_sweep(blocked);
    assert_eq!(a.jump, JumpState::Jumping);
}

#[test]
fn zero_time_frames_change_nothing() {
    let mut a = settled(false);
    let c = Config::standard();
    let d = a.plan_frame(Keys::none(), FRAME_100MS, &c);
    a.apply_sweep(free_sweep(d, false));
    let before = a;
    for k in [keys(false, true, false), keys(true, false, false), Keys::none()] {
        let d = a.plan_frame(k, 0, &c);
        assert_eq!(d, Vec2::new(0, 0));
        a.apply_sweep(free_sweep(d, false));
    }
    assert_eq!(a.jump, before.jump);
    assert_eq!(a.falling, before.falling);
    assert_eq!(a.position, before.position);
}

#[test]
fn left_walk_turns_left_and_right_wins() {
    let mut f = Facing::Right;
    assert_eq!(walk(keys(true, false, false), FRAME_16MS, 800, &mut f), -12_800_000);
    assert_eq!(f, Facing::Left);
    assert_eq!(walk(keys(true, true, false), FRAME_16MS, 800, &mut f), 12_800_000);
    assert_eq!(f, Facing::Right);
    assert_eq!(walk(Keys::none(), FRAME_16MS, 800, &mut f), 0);
    assert_eq!(f, Facing::Right);
}

#[test]
fn component_functions() {
    assert_eq!(fall_contribution(None, FRAME_100MS, FALL_RATE), 0);
    assert_eq!(fall_contribution(Some(1_000_000), 1_000_000, 2), -2_000_000);
    assert_eq!(fall_contribution(Some(3), 7, 1), 0);
    assert!(fall_contribution(Some(u64::MAX), u32::MAX, u32::MAX) < 0);
    assert_eq!(advance_falling(Some(5), 10), Some(15));
    assert_eq!(advance_falling(Some(u64::MAX - 1), 10), Some(u64::MAX));
    assert_eq!(advance_falling(None, 10), None);
    assert_eq!(settle_falling(Some(7), false), Some(7));
    assert_eq!(settle_falling(None, false), Some(0));
    assert_eq!(settle_falling(Some(7), true), None);
    assert_eq!(jump_contribution(JumpState::Jumping, 2, 1300), 2600);
    assert_eq!(jump_contribution(JumpState::Grounded, 2, 1300), 0);
    let s = SweepResult { desired: Vec2::new(1, 5), effective: Vec2::new(1, 2), grounded: false };
    assert!(sweep_ends_jump(&s));
    assert_eq!(after_sweep(JumpState::Jumping, &s), JumpState::Grounded);
    let s = SweepResult { desired: Vec2::new(1, 5), effective: Vec2::new(1, 5), grounded: false };
    assert!(!sweep_ends_jump(&s));
    assert_eq!(try_start(JumpState::Grounded, Some(SweepResult { grounded: true, ..s }), true), JumpState::Jumping);
    assert_eq!(try_start(JumpState::Grounded, None, true), JumpState::Grounded);
}

#[test]
fn position_saturates() {
    let mut a = Actor::new(Vec2::new(i128::MAX - 1, i128::MIN + 1));
    a.apply_sweep(free_sweep(Vec2::new(10, -10), false));
    assert_eq!(a.position, Vec2::new(i128::MAX, i128::MIN));
}

#[test]
fn solid_tiles_row_major() {
    let map = vec![1, 0, 1, 0, 1, 1];
    assert_eq!(solid_tiles(&map, 3), vec![(0, 0), (0, 2), (1, 1), (1, 2)]);
    assert_eq!(solid_tiles(&vec![], 4), vec![]);
    assert_eq!(solid_tiles(&vec![0, 2, 0], 1), vec![]);
}
