//! A 2D physics-sandbox playfield: a player circle, a goal, and a field of
//! fixed circular "bumper" obstacles placed at random so that no two placed
//! points come closer than a configured spacing.
//!
//! Positions are modelled in hundredths of a pixel, so that all geometry is
//! exact integer arithmetic.

mod geom;
mod motion;
mod playfield;
mod sampling;

pub use geom::{dist_sq_exec, is_clear, Pos};
pub use motion::{movement_force, AXIS_UNIT, MAX_FRAME_MICROS, MOVE_FORCE};
pub use playfield::{
    place_bumpers, setup_layout, Layout, BUMPER_COUNT, BUMPER_RADIUS, BUMPER_SPACING,
    MAX_PLACEMENT_ATTEMPTS, PLAYER_RADIUS, X_MAX, X_MIN, Y_MAX, Y_MIN,
};
