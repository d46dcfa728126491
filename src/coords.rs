use vstd::prelude::*;

verus! {

/// The grid position that index `i` of a row-major enumeration of a grid
/// `width` cells wide stands for.
pub open spec fn grid_point(i: int, width: int) -> (int, int) {
    (i % width, i / width)
}

/// Whether `map` enumerates every cell of a `width` x `height` grid, row by row.
pub open spec fn is_grid_map(map: Seq<(usize, usize)>, width: nat, height: nat) -> bool {
    &&& map.len() == width * height
    &&& forall|i: int|
        0 <= i < map.len() ==> (map[i].0 as int, map[i].1 as int) == #[trigger] grid_point(
            i,
            width as int,
        )
}

/// Whether every position of `map` lies inside a `width` x `height` grid.
pub open spec fn map_in_bounds(map: Seq<(usize, usize)>, width: nat, height: nat) -> bool {
    forall|i: int| 0 <= i < map.len() ==> #[trigger] map[i].0 < width && map[i].1 < height
}

proof fn lemma_row_major_step(x: int, y: int, width: int)
    requires
        0 <= x < width,
        0 <= y,
    ensures
        grid_point(y * width + x, width) == (x, y),
{
    assert((y * width + x) % width == x && (y * width + x) / width == y) by (nonlinear_arith)
        requires
            0 <= x < width,
            0 <= y,
    ;
}

/// The positions of every cell of a `width` x `height` grid, enumerated row
/// by row: all of row 0 from left to right, then row 1, and so on.
pub fn create_map(width: usize, height: usize) -> (maps: Vec<(usize, usize)>)
    requires
        width * height <= usize::MAX,
    ensures
        is_grid_map(maps@, width as nat, height as nat),
        map_in_bounds(maps@, width as nat, height as nat),
{
    let mut maps: Vec<(usize, usize)> = Vec::new();
    let mut y: usize = 0;
    while y < height
        invariant
            y <= height,
            width * height <= usize::MAX,
            maps@.len() == y * width,
            forall|i: int|
                0 <= i < maps@.len() ==> (maps@[i].0 as int, maps@[i].1 as int)
                    == #[trigger] grid_point(i, width as int),
        decreases height - y,
    {
        let mut x: usize = 0;
        while x < width
            invariant
                x <= width,
                y < height,
                maps@.len() == y * width + x,
                forall|i: int|
                    0 <= i < maps@.len() ==> (maps@[i].0 as int, maps@[i].1 as int)
                        == #[trigger] grid_point(i, width as int),
            decreases width - x,
        {
            proof {
                lemma_row_major_step(x as int, y as int, width as int);
            }
            maps.push((x, y));
            x = x + 1;
        }
        assert(maps@.len() == (y + 1) * width) by (nonlinear_arith)
            requires
                maps@.len() == y * width + width,
        ;
        y = y + 1;
    }
    assert(maps@.len() == width * height) by (nonlinear_arith)
        requires
            maps@.len() == y * width,
            y == height,
    ;
    proof {
        lemma_grid_map_in_bounds(maps@, width as nat, height as nat);
    }
    maps
}

/// Every position of a row-major map of a `width` x `height` grid lies inside
/// that grid.
pub proof fn lemma_grid_map_in_bounds(map: Seq<(usize, usize)>, width: nat, height: nat)
    requires
        is_grid_map(map, width, height),
    ensures
        map_in_bounds(map, width, height),
{
    assert forall|i: int| 0 <= i < map.len() implies #[trigger] map[i].0 < width && map[i].1
        < height by {
        assert(grid_point(i, width as int) == (map[i].0 as int, map[i].1 as int));
        assert(width > 0) by (nonlinear_arith)
            requires
                0 <= i < width * height,
        ;
        assert(i % (width as int) < width && i / (width as int) < height) by (nonlinear_arith)
            requires
                0 <= i < width * height,
                width > 0,
        ;
    }
}

} // verus!
