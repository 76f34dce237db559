//! Integer 2D positions and squared-distance geometry.
//!
//! A coordinate is stored in hundredths of a pixel, so every position the
//! playfield cares about is exact and all distance comparisons can be done
//! on squared distances with integer arithmetic.

use vstd::prelude::*;

verus! {

/// A point of the playfield, in hundredths of a pixel.
#[derive(Clone, Copy, PartialEq, Eq, Structural, Debug)]
pub struct Pos {
    pub x: i32,
    pub y: i32,
}

/// The squared Euclidean distance between two positions.
pub open spec fn dist_sq(a: Pos, b: Pos) -> int {
    (a.x - b.x) * (a.x - b.x) + (a.y - b.y) * (a.y - b.y)
}

/// Computes the squared distance exactly; an `i128` always has room for it.
pub fn dist_sq_exec(a: &Pos, b: &Pos) -> (r: i128)
    ensures
        r == dist_sq(*a, *b),
{
    let dx: i64 = (a.x as i64) - (b.x as i64);
    let dy: i64 = (a.y as i64) - (b.y as i64);
    proof {
        assert(dx * dx <= 0x1_0000_0000i64 * 0x1_0000_0000i64 && dx * dx >= 0)
            by (nonlinear_arith)
            requires -0x1_0000_0000i64 <= dx <= 0x1_0000_0000i64;
        assert(dy * dy <= 0x1_0000_0000i64 * 0x1_0000_0000i64 && dy * dy >= 0)
            by (nonlinear_arith)
            requires -0x1_0000_0000i64 <= dy <= 0x1_0000_0000i64;
    }
    (dx as i128) * (dx as i128) + (dy as i128) * (dy as i128)
}

/// A squared distance is never negative.
pub proof fn lemma_dist_sq_nonneg(a: Pos, b: Pos)
    ensures
        dist_sq(a, b) >= 0,
{
    assert((a.x - b.x) * (a.x - b.x) >= 0) by (nonlinear_arith);
    assert((a.y - b.y) * (a.y - b.y) >= 0) by (nonlinear_arith);
}

/// Swapping the two endpoints does not change the squared distance.
pub proof fn lemma_dist_sq_symmetric(a: Pos, b: Pos)
    ensures
        dist_sq(a, b) == dist_sq(b, a),
{
    assert((a.x - b.x) * (a.x - b.x) == (b.x - a.x) * (b.x - a.x)) by (nonlinear_arith);
    assert((a.y - b.y) * (a.y - b.y) == (b.y - a.y) * (b.y - a.y)) by (nonlinear_arith);
}

/// `p` keeps at least `spacing` away from every point of `pts`:
/// all squared distances reach `spacing * spacing`.
pub open spec fn clear_of(p: Pos, pts: Seq<Pos>, spacing: int) -> bool {
    forall|i: int| 0 <= i < pts.len() ==> dist_sq(p, pts[i]) >= spacing * spacing
}

/// Decides whether `p` keeps at least `spacing` away from every point of `pts`.
pub fn is_clear(p: &Pos, pts: &Vec<Pos>, spacing: i64) -> (r: bool)
    requires
        spacing >= 0,
    ensures
        r == clear_of(*p, pts@, spacing as int),
{
    proof {
        assert((spacing as int) * (spacing as int) <= 0x8000_0000_0000_0000 * 0x8000_0000_0000_0000)
            by (nonlinear_arith)
            requires 0 <= spacing as int <= 0x8000_0000_0000_0000;
    }
    let spacing_sq: i128 = (spacing as i128) * (spacing as i128);
    let mut i: usize = 0;
    while i < pts.len()
        invariant
            0 <= i <= pts.len(),
            spacing_sq == (spacing as int) * (spacing as int),
            forall|j: int| 0 <= j < i ==> dist_sq(*p, pts@[j]) >= spacing_sq,
        decreases pts.len() - i,
    {
        if dist_sq_exec(p, &pts[i]) < spacing_sq {
            return false;
        }
        i = i + 1;
    }
    true
}

} // verus!
