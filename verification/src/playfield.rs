//! The playfield: its bounds, the player and goal, and the bumper layout.
//!
//! All lengths are in hundredths of a pixel. The playfield is the rectangle
//! `[X_MIN, X_MAX) x [Y_MIN, Y_MAX)`; bumpers are placed inside it by
//! rejection sampling so that every placed point keeps the configured
//! spacing from every other placed point and from the seeded avoid-list.

use vstd::prelude::*;
use crate::geom::{clear_of, dist_sq, is_clear, lemma_dist_sq_nonneg, lemma_dist_sq_symmetric, Pos};
use crate::sampling::sample_point;

verus! {

/// Left edge of the playfield rectangle.
pub const X_MIN: i32 = -50000;

/// Right edge (exclusive) of the playfield rectangle.
pub const X_MAX: i32 = 50000;

/// Bottom edge of the playfield rectangle.
pub const Y_MIN: i32 = -30000;

/// Top edge (exclusive) of the playfield rectangle.
pub const Y_MAX: i32 = 30000;

/// Radius of the player circle.
pub const PLAYER_RADIUS: i64 = 3500;

/// Radius of a bumper circle.
pub const BUMPER_RADIUS: i64 = 4500;

/// Minimum distance between placed points: 2.05 bumper radii, so two
/// bumpers never touch and keep a small gap.
pub const BUMPER_SPACING: i64 = 9225;

/// How many bumpers the playfield holds.
pub const BUMPER_COUNT: usize = 16;

/// How many fresh draws a single bumper may use before placement gives up.
pub const MAX_PLACEMENT_ATTEMPTS: u32 = 10000;

/// The point lies inside the playfield rectangle.
pub open spec fn in_rect(p: Pos) -> bool {
    X_MIN <= p.x < X_MAX && Y_MIN <= p.y < Y_MAX
}

/// What a finished bumper layout guarantees: exactly `count` bumpers; every
/// bumper keeps `spacing` from every other bumper and from every point of
/// the avoid-list; and (for a positive spacing) every bumper lies inside
/// the playfield rectangle.
pub open spec fn well_placed(bs: Seq<Pos>, avoid: Seq<Pos>, count: int, spacing: int) -> bool {
    &&& bs.len() == count
    &&& forall|i: int, j: int|
        0 <= i < bs.len() && 0 <= j < bs.len() && i != j ==> dist_sq(bs[i], bs[j]) >= spacing
            * spacing
    &&& forall|i: int, j: int|
        0 <= i < bs.len() && 0 <= j < avoid.len() ==> dist_sq(bs[i], avoid[j]) >= spacing
            * spacing
    &&& spacing >= 1 ==> forall|i: int| 0 <= i < bs.len() ==> in_rect(bs[i])
}

/// Everything the startup routine decides: where the player and the goal
/// start, and where the bumpers stand.
pub struct Layout {
    pub player: Pos,
    pub goal: Pos,
    pub bumpers: Vec<Pos>,
}

/// Places `count` bumpers by rejection sampling: a candidate is committed
/// only once it keeps `spacing` from every point of the avoid-list and from
/// every bumper committed before it.
///
/// The first candidate for a bumper is `avoid[0]`; every rejected candidate
/// is replaced by a fresh uniform draw from the playfield rectangle, up to
/// `MAX_PLACEMENT_ATTEMPTS` draws per bumper. If some bumper runs out of
/// draws, no layout is returned; whether that happens depends on the draws,
/// but whatever is returned is well placed. With nothing to place, or a
/// spacing of zero, no draw can be rejected and a layout is owed.
pub fn place_bumpers(avoid: &Vec<Pos>, count: usize, spacing: i64) -> (r: Option<Vec<Pos>>)
    requires
        avoid.len() >= 1,
        spacing >= 0,
    ensures
        r matches Some(bs) ==> well_placed(bs@, avoid@, count as int, spacing as int),
        count == 0 ==> r is Some,
        spacing == 0 ==> r is Some,
{
    let mut rng = rand::thread_rng();
    let mut all: Vec<Pos> = Vec::new();
    let mut k: usize = 0;
    while k < avoid.len()
        invariant
            0 <= k <= avoid.len(),
            all@ =~= avoid@.take(k as int),
        decreases avoid.len() - k,
    {
        all.push(avoid[k]);
        k = k + 1;
    }
    let mut placed: Vec<Pos> = Vec::new();
    proof {
        assert(all@ =~= avoid@ + placed@);
    }
    while placed.len() < count
        invariant
            avoid.len() >= 1,
            spacing >= 0,
            placed@.len() <= count,
            all@ == avoid@ + placed@,
            forall|j: int|
                0 <= j < placed@.len() ==> clear_of(
                    placed@[j],
                    avoid@ + placed@.take(j),
                    spacing as int,
                ),
            spacing >= 1 ==> forall|j: int| 0 <= j < placed@.len() ==> in_rect(placed@[j]),
        decreases count - placed.len(),
    {
        let mut candidate: Pos = avoid[0];
        let mut ok: bool = is_clear(&candidate, &all, spacing);
        proof {
            if spacing >= 1 {
                assert(all@[0] == candidate);
                assert(dist_sq(candidate, all@[0]) == 0);
                assert(spacing * spacing >= 1) by (nonlinear_arith)
                    requires spacing >= 1;
                assert(!clear_of(candidate, all@, spacing as int));
            }
        }
        let mut tries: u32 = 0;
        while !ok && tries < MAX_PLACEMENT_ATTEMPTS
            invariant
                spacing >= 0,
                tries <= MAX_PLACEMENT_ATTEMPTS,
                ok == clear_of(candidate, all@, spacing as int),
                (ok && spacing >= 1) ==> in_rect(candidate),
            decreases MAX_PLACEMENT_ATTEMPTS - tries,
        {
            candidate = sample_point(&mut rng);
            ok = is_clear(&candidate, &all, spacing);
            tries = tries + 1;
        }
        if !ok {
            proof {
                assert forall|i: int| 0 <= i < all@.len() implies dist_sq(candidate, all@[i])
                    >= 0 by {
                    lemma_dist_sq_nonneg(candidate, all@[i]);
                }
                assert(spacing == 0 ==> clear_of(candidate, all@, 0));
                assert(spacing != 0);
            }
            return None;
        }
        let ghost placed0 = placed@;
        let ghost all0 = all@;
        placed.push(candidate);
        all.push(candidate);
        proof {
            assert(all@ =~= avoid@ + placed@);
            let j0: int = placed0.len() as int;
            assert(placed@.take(j0) =~= placed0);
            assert(avoid@ + placed@.take(j0) =~= all0);
            assert(clear_of(placed@[j0], avoid@ + placed@.take(j0), spacing as int));
            assert forall|j: int| 0 <= j < j0 implies clear_of(
                placed@[j],
                avoid@ + placed@.take(j),
                spacing as int,
            ) by {
                assert(placed@.take(j) =~= placed0.take(j));
                assert(avoid@ + placed@.take(j) =~= avoid@ + placed0.take(j));
                assert(clear_of(placed0[j], avoid@ + placed0.take(j), spacing as int));
            }
        }
    }
    proof {
        let bs = placed@;
        let s: int = spacing as int;
        assert forall|i: int, j: int|
            0 <= i < bs.len() && 0 <= j < bs.len() && i != j implies dist_sq(bs[i], bs[j]) >= s
            * s by {
            if i < j {
                assert(clear_of(bs[j], avoid@ + bs.take(j), s));
                assert((avoid@ + bs.take(j))[avoid@.len() + i] == bs[i]);
                assert(dist_sq(bs[j], (avoid@ + bs.take(j))[avoid@.len() + i]) >= s * s);
                lemma_dist_sq_symmetric(bs[j], bs[i]);
            } else {
                assert(clear_of(bs[i], avoid@ + bs.take(i), s));
                assert((avoid@ + bs.take(i))[avoid@.len() + j] == bs[j]);
                assert(dist_sq(bs[i], (avoid@ + bs.take(i))[avoid@.len() + j]) >= s * s);
            }
        }
        assert forall|i: int, j: int|
            0 <= i < bs.len() && 0 <= j < avoid@.len() implies dist_sq(bs[i], avoid@[j]) >= s
            * s by {
            assert(clear_of(bs[i], avoid@ + bs.take(i), s));
            assert((avoid@ + bs.take(i))[j] == avoid@[j]);
            assert(dist_sq(bs[i], (avoid@ + bs.take(i))[j]) >= s * s);
        }
    }
    Some(placed)
}

/// Decides everything the startup routine spawns: the player and the goal
/// start at the origin, and `BUMPER_COUNT` bumpers are placed around them
/// with `BUMPER_SPACING` between all placed points.
pub fn setup_layout() -> (r: Option<Layout>)
    ensures
        r matches Some(l) ==> ({
            &&& l.player == (Pos { x: 0, y: 0 })
            &&& l.goal == (Pos { x: 0, y: 0 })
            &&& well_placed(
                l.bumpers@,
                seq![l.player, l.goal],
                BUMPER_COUNT as int,
                BUMPER_SPACING as int,
            )
        }),
{
    let player = Pos { x: 0, y: 0 };
    let goal = Pos { x: 0, y: 0 };
    let mut avoid: Vec<Pos> = Vec::new();
    avoid.push(player);
    avoid.push(goal);
    proof {
        assert(avoid@ =~= seq![player, goal]);
    }
    match place_bumpers(&avoid, BUMPER_COUNT, BUMPER_SPACING) {
        Some(bumpers) => Some(Layout { player, goal, bumpers }),
        None => None,
    }
}

} // verus!
