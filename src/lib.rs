//! Player movement for a tile-based platformer: horizontal walking, an
//! edge-triggered jump, an accelerating free fall, and the per-frame
//! orchestration around a kinematic collision sweep.
//!
//! All quantities are fixed-point integers: time in microseconds and lengths
//! in micro-units (millionths of a world unit), so that every contribution to
//! a frame's displacement is exact.
pub mod actor;
pub mod fall;
pub mod geom;
pub mod jump;
pub mod laws;
pub mod level;
pub mod walk;

pub use actor::{Actor, Config, FrameEvent, FALL_RATE, JUMP_RATE, PLAYER_SPEED};
pub use geom::{SweepResult, Vec2, MICROS};
pub use jump::JumpState;
pub use level::solid_tiles;
pub use walk::{Facing, Keys};
