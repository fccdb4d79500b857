//! The rejection-sampling placement generator and its deterministic core.

use rand::Rng;
use vstd::prelude::*;

verus! {

use crate::geometry::{
    Placement, in_bounds, lemma_overlap_symmetric, overlap, overlaps, pairwise_separated,
};

/// Why no layout came back.
#[derive(Clone, Copy, PartialEq, Eq, Structural, Debug)]
pub enum PlacementError {
    /// The canvas leaves no room for the inset sampling window.
    CanvasTooSmall,
    /// The attempt budget ran out before enough separated placements were
    /// accepted.
    Infeasible,
}

/// The placements that greedy acceptance keeps: walk the candidates in order,
/// keep each one that collides with nothing kept so far, and stop once
/// `count` are kept.
pub open spec fn accepted_from(
    kept: Seq<Placement>,
    candidates: Seq<Placement>,
    exclusion: int,
    count: int,
) -> Seq<Placement>
    decreases candidates.len(),
{
    if kept.len() >= count || candidates.len() == 0 {
        kept
    } else if exists|j: int| 0 <= j < kept.len() && overlaps(candidates[0], kept[j], exclusion) {
        accepted_from(kept, candidates.drop_first(), exclusion, count)
    } else {
        accepted_from(kept.push(candidates[0]), candidates.drop_first(), exclusion, count)
    }
}

/// Greedy acceptance started from an empty layout.
pub open spec fn accepted(candidates: Seq<Placement>, exclusion: int, count: int) -> Seq<
    Placement,
> {
    accepted_from(Seq::<Placement>::empty(), candidates, exclusion, count)
}

/// Whether `candidate` collides with any placement kept so far.
fn conflicts(candidate: &Placement, kept: &Vec<Placement>, exclusion: usize) -> (r: bool)
    ensures
        r == exists|j: int|
            0 <= j < kept@.len() && overlaps(*candidate, kept@[j], exclusion as int),
{
    let mut j: usize = 0;
    while j < kept.len()
        invariant
            j <= kept@.len(),
            forall|k: int| 0 <= k < j ==> !overlaps(*candidate, kept@[k], exclusion as int),
        decreases kept@.len() - j,
    {
        if overlap(candidate, &kept[j], exclusion) {
            return true;
        }
        j += 1;
    }
    false
}

/// The deterministic core of the generator: given the sequence of candidate
/// draws, keep each candidate that collides with none kept before it, until
/// `count` placements are kept. The result is exactly the greedy acceptance
/// over the draws, so the same draws always give the same layout; the draws
/// run out before `count` placements are kept if and only if the call fails.
pub fn select_placements(
    candidates: &Vec<Placement>,
    canvas_width: i32,
    canvas_height: i32,
    tile_size: usize,
    margin: usize,
    count: usize,
) -> (r: Result<Vec<Placement>, PlacementError>)
    requires
        canvas_width > 210,
        canvas_height > 210,
        tile_size + margin <= usize::MAX,
        forall|i: int|
            0 <= i < candidates@.len() ==> in_bounds(
                candidates@[i],
                canvas_width as int,
                canvas_height as int,
            ),
    ensures
        match r {
            Ok(ps) => {
                &&& ps@ == accepted(candidates@, tile_size + margin, count as int)
                &&& ps@.len() == count
                &&& forall|i: int|
                    0 <= i < ps@.len() ==> in_bounds(
                        ps@[i],
                        canvas_width as int,
                        canvas_height as int,
                    )
                &&& pairwise_separated(ps@, tile_size + margin)
            },
            Err(e) => {
                &&& e == PlacementError::Infeasible
                &&& accepted(candidates@, tile_size + margin, count as int).len() < count
            },
        },
        r is Ok <==> accepted(candidates@, tile_size + margin, count as int).len() == count,
{
    let exclusion: usize = tile_size + margin;
    let mut kept: Vec<Placement> = Vec::new();
    let mut i: usize = 0;
    proof {
        assert(candidates@.skip(0) =~= candidates@);
    }
    while i < candidates.len() && kept.len() < count
        invariant
            i <= candidates@.len(),
            kept@.len() <= count,
            exclusion == tile_size + margin,
            accepted(candidates@, exclusion as int, count as int) == accepted_from(
                kept@,
                candidates@.skip(i as int),
                exclusion as int,
                count as int,
            ),
            forall|k: int|
                0 <= k < kept@.len() ==> in_bounds(
                    kept@[k],
                    canvas_width as int,
                    canvas_height as int,
                ),
            pairwise_separated(kept@, exclusion as int),
            forall|k: int|
                0 <= k < candidates@.len() ==> in_bounds(
                    candidates@[k],
                    canvas_width as int,
                    canvas_height as int,
                ),
        decreases candidates@.len() - i,
    {
        let c = candidates[i];
        proof {
            assert(candidates@.skip(i as int)[0] == candidates@[i as int]);
            assert(candidates@.skip(i as int).drop_first() =~= candidates@.skip(i as int + 1));
        }
        if !conflicts(&c, &kept, exclusion) {
            proof {
                assert forall|k: int| 0 <= k < kept@.len() implies !overlaps(
                    kept@[k],
                    c,
                    exclusion as int,
                ) by {
                    lemma_overlap_symmetric(kept@[k], c, exclusion as int);
                }
            }
            kept.push(c);
        }
        i += 1;
    }
    proof {
        if i == candidates@.len() {
            assert(candidates@.skip(i as int) =~= Seq::<Placement>::empty());
        }
    }
    if kept.len() == count {
        Ok(kept)
    } else {
        Err(PlacementError::Infeasible)
    }
}

/// Relies on rand::Rng::gen_range, called on the generator that
/// rand::thread_rng hands out: a draw from the half-open range `[lo, hi)`.
/// gen_range panics only on an empty range, which the precondition rules out.
#[verifier::external_body]
fn draw_in_range(lo: i32, hi: i32) -> (r: i32)
    requires
        lo < hi,
    ensures
        lo <= r < hi,
{
    rand::thread_rng().gen_range(lo..hi)
}

/// Rejection sampling against the thread-local random source, with an
/// explicit attempt budget in place of an unbounded retry loop. A canvas of
/// 210 or less on either side leaves the sampling window `[30, side - 180)`
/// empty and is reported as such; an exhausted budget is reported as an
/// infeasible layout. A returned layout always has exactly `count`
/// placements, all inside the sampling window and pairwise separated by the
/// exclusion distance `tile_size + margin`.
pub fn generate(
    canvas_width: i32,
    canvas_height: i32,
    tile_size: usize,
    margin: usize,
    count: usize,
    max_attempts: usize,
) -> (r: Result<Vec<Placement>, PlacementError>)
    requires
        tile_size + margin <= usize::MAX,
    ensures
        match r {
            Ok(ps) => {
                &&& ps@.len() == count
                &&& forall|i: int|
                    0 <= i < ps@.len() ==> in_bounds(
                        ps@[i],
                        canvas_width as int,
                        canvas_height as int,
                    )
                &&& pairwise_separated(ps@, tile_size + margin)
            },
            Err(e) => e == PlacementError::CanvasTooSmall <==> (canvas_width <= 210
                || canvas_height <= 210),
        },
        canvas_width <= 210 || canvas_height <= 210 ==> r == Err::<
            Vec<Placement>,
            PlacementError,
        >(PlacementError::CanvasTooSmall),
{
    if canvas_width <= 210 || canvas_height <= 210 {
        return Err(PlacementError::CanvasTooSmall);
    }
    let exclusion: usize = tile_size + margin;
    let mut kept: Vec<Placement> = Vec::new();
    let mut attempts: usize = 0;
    while attempts < max_attempts && kept.len() < count
        invariant
            canvas_width > 210,
            canvas_height > 210,
            exclusion == tile_size + margin,
            attempts <= max_attempts,
            kept@.len() <= count,
            forall|k: int|
                0 <= k < kept@.len() ==> in_bounds(
                    kept@[k],
                    canvas_width as int,
                    canvas_height as int,
                ),
            pairwise_separated(kept@, exclusion as int),
        decreases max_attempts - attempts,
    {
        let x = draw_in_range(30, canvas_width - 180);
        let y = draw_in_range(30, canvas_height - 180);
        let c = Placement { x, y };
        if !conflicts(&c, &kept, exclusion) {
            proof {
                assert forall|k: int| 0 <= k < kept@.len() implies !overlaps(
                    kept@[k],
                    c,
                    exclusion as int,
                ) by {
                    lemma_overlap_symmetric(kept@[k], c, exclusion as int);
                }
            }
            kept.push(c);
        }
        attempts += 1;
    }
    if kept.len() == count {
        Ok(kept)
    } else {
        Err(PlacementError::Infeasible)
    }
}

/// With the same candidate draws, exclusion distance and target count, the
/// selection is one fixed sequence: two runs over the same draws agree.
pub proof fn lemma_selection_deterministic(
    candidates: Seq<Placement>,
    exclusion: int,
    count: int,
    first: Seq<Placement>,
    second: Seq<Placement>,
)
    requires
        first == accepted(candidates, exclusion, count),
        second == accepted(candidates, exclusion, count),
    ensures
        first == second,
{
}

} // verus!
