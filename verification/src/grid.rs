//! The grid layout that accepted tiles are composed into: the tile at a given
//! index goes to a slot found by column (index modulo the row width) and row
//! (index divided by it).

use vstd::prelude::*;

verus! {

/// Destination of the tile at `index` in a grid with `row_width` slots per
/// row: `base_x + (index % row_width) * slot_size` across and
/// `base_y + (index / row_width) * slot_size` down.
pub fn grid_position(
    index: usize,
    row_width: usize,
    base_x: usize,
    base_y: usize,
    slot_size: usize,
) -> (r: (usize, usize))
    requires
        row_width > 0,
        base_x + (index % row_width) * slot_size <= usize::MAX,
        base_y + (index / row_width) * slot_size <= usize::MAX,
    ensures
        r.0 == base_x + (index % row_width) * slot_size,
        r.1 == base_y + (index / row_width) * slot_size,
{
    let col: usize = index % row_width;
    let row: usize = index / row_width;
    (base_x + col * slot_size, base_y + row * slot_size)
}

} // verus!
