//! The level's static geometry: a row-major grid in which a cell holding `1`
//! is a solid tile.
use vstd::prelude::*;

verus! {

/// Value of a grid cell that holds a solid tile.
pub const SOLID: usize = 1;

/// The (row, column) of each solid cell among the first `map.len()` cells of
/// a row-major grid `width` cells wide, in index order.
pub open spec fn solid_cells(map: Seq<usize>, width: usize) -> Seq<(usize, usize)>
    recommends
        width > 0,
    decreases map.len(),
{
    if map.len() == 0 {
        Seq::empty()
    } else {
        let k = map.len() - 1;
        let before = solid_cells(map.drop_last(), width);
        if map.last() == SOLID {
            before.push(((k / width as int) as usize, (k % width as int) as usize))
        } else {
            before
        }
    }
}

/// Lists the (row, column) of every solid tile of the grid, in index order.
pub fn solid_tiles(map: &Vec<usize>, width: usize) -> (r: Vec<(usize, usize)>)
    requires
        width > 0,
    ensures
        r@ == solid_cells(map@, width),
{
    let mut r: Vec<(usize, usize)> = Vec::new();
    let mut i: usize = 0;
    while i < map.len()
        invariant
            width > 0,
            i <= map.len(),
            r@ == solid_cells(map@.take(i as int), width),
        decreases map.len() - i,
    {
        assert(map@.take(i + 1).drop_last() =~= map@.take(i as int));
        assert(map@.take(i + 1).last() == map@[i as int]);
        if map[i] == SOLID {
            r.push((i / width, i % width));
        }
        i += 1;
    }
    assert(map@.take(map.len() as int) =~= map@);
    r
}

} // verus!
