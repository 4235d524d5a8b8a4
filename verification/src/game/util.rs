use vstd::prelude::*;
use crate::game::{GridError, World};

verus! {

/// A grid position, `i` being the row and `j` the column.
#[derive(Debug, Clone, Copy, PartialEq, Eq, Structural)]
pub struct Pos {
    pub i: u32,
    pub j: u32,
}

impl Pos {
    pub fn new(i: u32, j: u32) -> (r: Self)
        ensures
            r.i == i,
            r.j == j,
    {
        Self { i, j }
    }
}

/// 1 if `(row, col)` is inside the grid and alive, else 0; positions off the
/// edge contribute nothing, so this is the non-wrapping counterpart of
/// `World::alive_wrapped`.
pub open spec fn bounded_alive(grid: &World, row: int, col: int) -> int {
    if grid.in_bounds(row, col) {
        grid.alive_val(row, col)
    } else {
        0
    }
}

/// The number of living cells among the at most eight in-bounds neighbors of
/// `(i, j)`, without wraparound: the grid edge simply has fewer neighbors.
pub open spec fn bounded_neighbor_count(grid: &World, i: int, j: int) -> int {
    bounded_alive(grid, i - 1, j - 1) + bounded_alive(grid, i - 1, j) + bounded_alive(
        grid,
        i - 1,
        j + 1,
    ) + bounded_alive(grid, i, j - 1) + bounded_alive(grid, i, j + 1) + bounded_alive(
        grid,
        i + 1,
        j - 1,
    ) + bounded_alive(grid, i + 1, j) + bounded_alive(grid, i + 1, j + 1)
}

/// Counts the living neighbors of `cell_pos` without wraparound, or reports
/// `OutOfBounds` when the position itself lies outside the grid.
pub fn num_living_neighbours(cell_pos: Pos, grid: &World) -> (r: Result<usize, GridError>)
    requires
        grid.wf(),
    ensures
        r is Ok <==> (cell_pos.i < grid.height && cell_pos.j < grid.width),
        r is Ok ==> r->Ok_0 == bounded_neighbor_count(grid, cell_pos.i as int, cell_pos.j as int),
        r is Err ==> r->Err_0 == GridError::OutOfBounds,
{
    if cell_pos.i < grid.height && cell_pos.j < grid.width {
        let mut count: usize = 0;
        if bounded_alive_exec(grid, cell_pos.i, cell_pos.j, -1, -1) {
            count = count + 1;
        }
        if bounded_alive_exec(grid, cell_pos.i, cell_pos.j, -1, 0) {
            count = count + 1;
        }
        if bounded_alive_exec(grid, cell_pos.i, cell_pos.j, -1, 1) {
            count = count + 1;
        }
        if bounded_alive_exec(grid, cell_pos.i, cell_pos.j, 0, -1) {
            count = count + 1;
        }
        if bounded_alive_exec(grid, cell_pos.i, cell_pos.j, 0, 1) {
            count = count + 1;
        }
        if bounded_alive_exec(grid, cell_pos.i, cell_pos.j, 1, -1) {
            count = count + 1;
        }
        if bounded_alive_exec(grid, cell_pos.i, cell_pos.j, 1, 0) {
            count = count + 1;
        }
        if bounded_alive_exec(grid, cell_pos.i, cell_pos.j, 1, 1) {
            count = count + 1;
        }
        Ok(count)
    } else {
        Err(GridError::OutOfBounds)
    }
}

/// The index range of the rows (or columns) holding the in-bounds neighbors
/// of index `n` on an axis of length `limit`: one step either side of `n`,
/// clipped to the axis.
pub fn get_neighbours_range(n: usize, limit: usize) -> (r: core::ops::Range<usize>)
    requires
        limit >= 1,
    ensures
        r.start == if n > 0 {
            n - 1
        } else {
            0int
        },
        r.end == if n + 1 < limit {
            n + 2
        } else {
            limit as int
        },
{
    let lower: usize = if n > 0 {
        n - 1
    } else {
        0
    };
    let upper: usize = if n < limit - 1 {
        n + 2
    } else {
        limit
    };

    lower..upper
}

/// Whether the in-bounds neighbor at offset `(di, dj)` from `(i, j)` exists
/// and is alive.
fn bounded_alive_exec(grid: &World, i: u32, j: u32, di: i8, dj: i8) -> (r: bool)
    requires
        grid.wf(),
        i < grid.height,
        j < grid.width,
        -1 <= di <= 1,
        -1 <= dj <= 1,
    ensures
        (r ==> bounded_alive(grid, i + di, j + dj) == 1),
        (!r ==> bounded_alive(grid, i + di, j + dj) == 0),
{
    let row_ok: bool = if di < 0 {
        i >= 1
    } else {
        i as u64 + di as u64 <= grid.height as u64 - 1
    };
    let col_ok: bool = if dj < 0 {
        j >= 1
    } else {
        j as u64 + dj as u64 <= grid.width as u64 - 1
    };
    if row_ok && col_ok {
        let r: u32 = if di < 0 {
            i - 1
        } else {
            i + di as u32
        };
        let c: u32 = if dj < 0 {
            j - 1
        } else {
            j + dj as u32
        };
        match grid.at(r, c) {
            Ok(cell) => cell.is_alive(),
            Err(_) => false,
        }
    } else {
        false
    }
}

} // verus!
