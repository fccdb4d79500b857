//! Placements and the square-exclusion collision test between them.

use vstd::prelude::*;

verus! {

/// The top-left origin of one square tile inside the canvas.
#[derive(Clone, Copy, PartialEq, Eq, Structural, Debug)]
pub struct Placement {
    pub x: i32,
    pub y: i32,
}

/// Distance between two coordinates on one axis.
pub open spec fn abs_diff(a: int, b: int) -> int {
    if a >= b {
        a - b
    } else {
        b - a
    }
}

/// Two placements collide when their origins are closer than `exclusion` on
/// both axes at once: the exclusion zone is an axis-aligned square, not a
/// circle, and the comparison is strict.
pub open spec fn overlaps(a: Placement, b: Placement, exclusion: int) -> bool {
    abs_diff(a.x as int, b.x as int) < exclusion && abs_diff(a.y as int, b.y as int) < exclusion
}

/// A placement lies inside the sampling window of the canvas: inset 30 from
/// the left and top edges and 180 from the right and bottom ones, so that
/// later border and blur passes cannot clip the decorated tile.
pub open spec fn in_bounds(p: Placement, canvas_width: int, canvas_height: int) -> bool {
    &&& 30 <= p.x < canvas_width - 180
    &&& 30 <= p.y < canvas_height - 180
}

/// No two distinct placements of the sequence collide.
pub open spec fn pairwise_separated(s: Seq<Placement>, exclusion: int) -> bool {
    forall|i: int, j: int| 0 <= i < j < s.len() ==> !overlaps(s[i], s[j], exclusion)
}

/// Runtime collision test. Total: the distances are taken in 64-bit space,
/// so no input pair can overflow it.
pub fn overlap(a: &Placement, b: &Placement, box_size: usize) -> (r: bool)
    ensures
        r == overlaps(*a, *b, box_size as int),
{
    let dx: i64 = if a.x >= b.x {
        a.x as i64 - b.x as i64
    } else {
        b.x as i64 - a.x as i64
    };
    let dy: i64 = if a.y >= b.y {
        a.y as i64 - b.y as i64
    } else {
        b.y as i64 - a.y as i64
    };
    (dx as u64) < (box_size as u64) && (dy as u64) < (box_size as u64)
}

/// The collision test does not depend on the order of its two placements.
pub proof fn lemma_overlap_symmetric(a: Placement, b: Placement, exclusion: int)
    ensures
        overlaps(a, b, exclusion) == overlaps(b, a, exclusion),
{
}

/// When the sampling window is no wider than the exclusion distance on either
/// axis, any two placements inside it collide, so a separated set can hold at
/// most one placement. This is why a small canvas can never carry a larger
/// layout, however many draws are spent on it.
pub proof fn lemma_window_within_exclusion(
    s: Seq<Placement>,
    canvas_width: int,
    canvas_height: int,
    exclusion: int,
)
    requires
        canvas_width - 210 <= exclusion,
        canvas_height - 210 <= exclusion,
        forall|i: int| 0 <= i < s.len() ==> in_bounds(s[i], canvas_width, canvas_height),
        pairwise_separated(s, exclusion),
    ensures
        s.len() <= 1,
{
    if s.len() >= 2 {
        assert(in_bounds(s[0], canvas_width, canvas_height));
        assert(in_bounds(s[1], canvas_width, canvas_height));
        assert(overlaps(s[0], s[1], exclusion));
        assert(!overlaps(s[0], s[1], exclusion));
    }
}

} // verus!
