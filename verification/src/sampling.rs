//! Random draws of candidate positions, through the `rand` crate.
//!
//! The only facts assumed of the generator are the ones `rand` documents:
//! a draw from a half-open range lands inside that range. Which point comes
//! back is left open, so everything proved downstream holds for every
//! possible draw.

use vstd::prelude::*;
use crate::geom::Pos;
use crate::playfield::{in_rect, X_MAX, X_MIN, Y_MAX, Y_MIN};
use rand::Rng;

verus! {

#[verifier::external_type_specification]
#[verifier::external_body]
pub struct ExThreadRng(rand::rngs::ThreadRng);

/// Relies on rand::thread_rng: hands out the thread-local generator.
/// Nothing is assumed of the state it starts in.
pub assume_specification[ rand::thread_rng ]() -> rand::rngs::ThreadRng;

/// Relies on rand::Rng::gen_range on a half-open `i32` range: the draw lies
/// inside the range. The range must be non-empty, since `gen_range` panics
/// on an empty one.
#[verifier::external_body]
fn gen_range_i32(rng: &mut rand::rngs::ThreadRng, lo: i32, hi: i32) -> (r: i32)
    requires
        lo < hi,
    ensures
        lo <= r < hi,
{
    rng.gen_range(lo..hi)
}

/// Draws a uniformly random point of the playfield rectangle.
pub fn sample_point(rng: &mut rand::rngs::ThreadRng) -> (p: Pos)
    ensures
        in_rect(p),
{
    let x = gen_range_i32(rng, X_MIN, X_MAX);
    let y = gen_range_i32(rng, Y_MIN, Y_MAX);
    Pos { x, y }
}

} // verus!
