//! The per-frame movement rule: the force pushed onto the player circle is
//! the clamped input axis, scaled by `MOVE_FORCE` and by the frame time.
//!
//! The axis is carried in thousandths of its unit length (a clamped axis
//! component lies in `[-1, 1]`, so in `[-1000, 1000]` here) and the frame
//! time in microseconds, so the product is exact.

use vstd::prelude::*;

verus! {

/// How hard the input pushes the player, per unit axis and per second.
pub const MOVE_FORCE: i64 = 1500;

/// An axis component at full deflection: one unit, in thousandths.
pub const AXIS_UNIT: i64 = 1000;

/// The longest frame the movement rule accepts, in microseconds.
pub const MAX_FRAME_MICROS: i64 = 60_000_000;

/// The force to push onto the player this frame, exactly
/// `axis * MOVE_FORCE * dt` in each component.
///
/// `axis_x` and `axis_y` are the clamped input axis in thousandths, `dt_micros`
/// the frame time in microseconds; the result is in thousandths of a force
/// unit times microseconds.
pub fn movement_force(axis_x: i64, axis_y: i64, dt_micros: i64) -> (f: (i64, i64))
    requires
        -AXIS_UNIT <= axis_x <= AXIS_UNIT,
        -AXIS_UNIT <= axis_y <= AXIS_UNIT,
        0 <= dt_micros <= MAX_FRAME_MICROS,
    ensures
        f.0 == axis_x * MOVE_FORCE * dt_micros,
        f.1 == axis_y * MOVE_FORCE * dt_micros,
{
    proof {
        assert(-AXIS_UNIT * MOVE_FORCE * MAX_FRAME_MICROS <= axis_x * MOVE_FORCE * dt_micros
            <= AXIS_UNIT * MOVE_FORCE * MAX_FRAME_MICROS) by (nonlinear_arith)
            requires
                -AXIS_UNIT <= axis_x <= AXIS_UNIT,
                0 <= dt_micros <= MAX_FRAME_MICROS;
        assert(-AXIS_UNIT * MOVE_FORCE * MAX_FRAME_MICROS <= axis_y * MOVE_FORCE * dt_micros
            <= AXIS_UNIT * MOVE_FORCE * MAX_FRAME_MICROS) by (nonlinear_arith)
            requires
                -AXIS_UNIT <= axis_y <= AXIS_UNIT,
                0 <= dt_micros <= MAX_FRAME_MICROS;
    }
    let fx: i64 = axis_x * MOVE_FORCE * dt_micros;
    let fy: i64 = axis_y * MOVE_FORCE * dt_micros;
    (fx, fy)
}

} // verus!
