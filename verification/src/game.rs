use vstd::prelude::*;
use crate::game::world_parts::Cell;

pub mod util;
pub mod world_parts;

verus! {

/// The failures the engine can report: a position outside the grid, or a
/// construction whose dimensions do not match the supplied cells.
#[derive(Clone, Copy, Debug, PartialEq, Eq, Structural)]
pub enum GridError {
    OutOfBounds,
    InvalidDimensions,
}

/// A toroidal grid of cells, stored row-major: the cell at `(row, col)`
/// lives at flat index `row * width + col`.
#[derive(Clone, Debug, PartialEq)]
pub struct World {
    pub grid: Vec<Cell>,
    pub width: u32,
    pub height: u32,
}

impl World {
    /// A well-formed world has positive dimensions and exactly one cell per
    /// grid position; construction establishes this and evolution preserves
    /// it.
    pub open spec fn wf(&self) -> bool {
        &&& self.width >= 1
        &&& self.height >= 1
        &&& self.grid@.len() == self.width * self.height
    }

    pub open spec fn in_bounds(&self, row: int, col: int) -> bool {
        0 <= row < self.height && 0 <= col < self.width
    }

    /// The cell at logical position `(row, col)`.
    pub open spec fn cell_at(&self, row: int, col: int) -> Cell {
        self.grid@[row * self.width + col]
    }

    /// 1 if the cell at `(row, col)` is alive, else 0.
    pub open spec fn alive_val(&self, row: int, col: int) -> int {
        if self.cell_at(row, col) is Alive {
            1
        } else {
            0
        }
    }

    /// `alive_val` after wrapping the coordinates onto the torus.
    pub open spec fn alive_wrapped(&self, row: int, col: int) -> int {
        self.alive_val(row % self.height as int, col % self.width as int)
    }

    /// The number of living cells among the eight toroidal neighbors of
    /// `(row, col)`: each of the eight offsets is taken modulo the grid
    /// dimensions, so edges wrap around. On a grid narrower or shorter than
    /// three cells, distinct offsets can wrap onto the same cell, which is
    /// then counted once per offset.
    pub open spec fn neighbor_count(&self, row: int, col: int) -> int {
        let h = self.height as int;
        let w = self.width as int;
        self.alive_wrapped(row + h - 1, col + w - 1) + self.alive_wrapped(row + h - 1, col)
            + self.alive_wrapped(row + h - 1, col + 1) + self.alive_wrapped(row, col + w - 1)
            + self.alive_wrapped(row, col + 1) + self.alive_wrapped(row + 1, col + w - 1)
            + self.alive_wrapped(row + 1, col) + self.alive_wrapped(row + 1, col + 1)
    }

    /// The state the cell at `(row, col)` takes in the next generation.
    pub open spec fn next_cell(&self, row: int, col: int) -> Cell {
        self.cell_at(row, col).spec_set_state(self.neighbor_count(row, col))
    }

    /// The whole next generation, row-major, computed from a read-only view
    /// of the current one.
    pub open spec fn evolved(&self) -> Seq<Cell> {
        Seq::new(
            (self.width * self.height) as nat,
            |i: int| self.next_cell(i / self.width as int, i % self.width as int),
        )
    }

    /// A grid seeded at random: every cell is independently alive or dead,
    /// drawn from a uniform boolean source. Zero dimensions are ruled out at
    /// this boundary; deterministic construction goes through `from_layout`.
    pub fn new(width: u32, height: u32) -> (r: Self)
        requires
            width >= 1,
            height >= 1,
            width * height <= usize::MAX,
        ensures
            r.width == width,
            r.height == height,
            r.wf(),
    {
        let n: usize = (width as usize) * (height as usize);
        let mut grid: Vec<Cell> = Vec::new();
        let mut i: usize = 0;
        while i < n
            invariant
                i <= n,
                grid@.len() == i,
            decreases n - i,
        {
            if random_bool() {
                grid.push(Cell::Alive);
            } else {
                grid.push(Cell::Dead);
            }
            i = i + 1;
        }
        World { grid, width, height }
    }

    /// A grid built from an explicit row-major layout, for deterministic
    /// callers: it succeeds exactly when the dimensions are positive and the
    /// layout holds one cell per position, and fails with
    /// `InvalidDimensions` otherwise.
    pub fn from_layout(cells: Vec<Cell>, width: u32, height: u32) -> (r: Result<World, GridError>)
        ensures
            r is Ok <==> (width >= 1 && height >= 1 && cells@.len() == width * height),
            r is Ok ==> {
                &&& r->Ok_0.grid@ == cells@
                &&& r->Ok_0.width == width
                &&& r->Ok_0.height == height
                &&& r->Ok_0.wf()
            },
            r is Err ==> r->Err_0 == GridError::InvalidDimensions,
    {
        if width == 0 || height == 0 {
            return Err(GridError::InvalidDimensions);
        }
        proof {
            vstd::arithmetic::mul::lemma_mul_upper_bound(
                width as int,
                u32::MAX as int,
                height as int,
                u32::MAX as int,
            );
        }
        let expected: u64 = (width as u64) * (height as u64);
        if (cells.len() as u64) != expected {
            return Err(GridError::InvalidDimensions);
        }
        Ok(World { grid: cells, width, height })
    }

    /// The flat row-major index of `(row, col)`, as raw arithmetic on the
    /// coordinates; callers that want the grid bound enforced go through
    /// `at` instead.
    pub fn get_index(&self, row: u32, col: u32) -> (idx: usize)
        requires
            row * self.width + col <= u32::MAX,
        ensures
            idx == row * self.width + col,
    {
        (row * self.width + col) as usize
    }

    /// The flat index of an in-bounds position, computed in wide enough
    /// arithmetic to cover every well-formed grid.
    fn flat_index(&self, row: u32, col: u32) -> (idx: usize)
        requires
            self.wf(),
            row < self.height,
            col < self.width,
        ensures
            idx == row * self.width + col,
            idx < self.grid@.len(),
    {
        let n = self.grid.len();
        proof {
            lemma_flat_index_in_range(
                row as int,
                col as int,
                self.width as int,
                self.height as int,
            );
            assert(row * self.width <= row * self.width + col < n);
        }
        ((row as u64) * (self.width as u64) + (col as u64)) as usize
    }

    /// Whether the cell at the wrapped position `(row % height, col % width)`
    /// is alive, as 0 or 1.
    fn alive_at_wrapped(&self, row: u64, col: u64) -> (n: u8)
        requires
            self.wf(),
        ensures
            n == self.alive_wrapped(row as int, col as int),
            n <= 1,
    {
        let r = (row % (self.height as u64)) as u32;
        let c = (col % (self.width as u64)) as u32;
        let idx = self.flat_index(r, c);
        if self.grid[idx].is_alive() {
            1
        } else {
            0
        }
    }

    /// Counts the living cells among the eight toroidal neighbors of
    /// `(row, col)`: each neighbor position is the offset sum taken modulo
    /// the grid dimensions, so the scan needs no special case at any edge.
    pub fn get_num_alive_neighbours(&self, row: u32, col: u32) -> (count: u8)
        requires
            self.wf(),
            row < self.height,
            col < self.width,
        ensures
            count == self.neighbor_count(row as int, col as int),
            count <= 8,
    {
        let h = self.height as u64;
        let w = self.width as u64;
        let r = row as u64;
        let c = col as u64;
        let mut count: u8 = 0;
        count = count + self.alive_at_wrapped(r + h - 1, c + w - 1);
        count = count + self.alive_at_wrapped(r + h - 1, c);
        count = count + self.alive_at_wrapped(r + h - 1, c + 1);
        count = count + self.alive_at_wrapped(r, c + w - 1);
        count = count + self.alive_at_wrapped(r, c + 1);
        count = count + self.alive_at_wrapped(r + 1, c + w - 1);
        count = count + self.alive_at_wrapped(r + 1, c);
        count = count + self.alive_at_wrapped(r + 1, c + 1);
        count
    }

    /// The cell at `(row, col)`, or `OutOfBounds` when the position lies
    /// outside the grid; the bound is enforced at this query boundary
    /// because any caller may request an arbitrary coordinate.
    pub fn at(&self, row: u32, col: u32) -> (r: Result<Cell, GridError>)
        requires
            self.wf(),
        ensures
            r is Ok <==> (row < self.height && col < self.width),
            r is Ok ==> r->Ok_0 == self.cell_at(row as int, col as int),
            r is Err ==> r->Err_0 == GridError::OutOfBounds,
    {
        if row < self.height && col < self.width {
            let idx = self.flat_index(row, col);
            Ok(self.grid[idx])
        } else {
            Err(GridError::OutOfBounds)
        }
    }

    /// The next generation as a fresh buffer, computed entirely from a
    /// read-only view of the current one.
    fn compute_next(&self) -> (v: Vec<Cell>)
        requires
            self.wf(),
        ensures
            v@ == self.evolved(),
            forall|r: int, c: int|
                self.in_bounds(r, c) ==> v@[r * self.width + c] == self.next_cell(r, c),
    {
        let mut v: Vec<Cell> = Vec::new();
        let mut row: u32 = 0;
        while row < self.height
            invariant
                self.wf(),
                row <= self.height,
                v@.len() == row * self.width,
                forall|r: int, c: int|
                    0 <= r < row && 0 <= c < self.width ==> v@[r * self.width + c]
                        == self.next_cell(r, c),
            decreases self.height - row,
        {
            let mut col: u32 = 0;
            while col < self.width
                invariant
                    self.wf(),
                    row < self.height,
                    col <= self.width,
                    v@.len() == row * self.width + col,
                    forall|r: int, c: int|
                        0 <= r < row && 0 <= c < self.width ==> v@[r * self.width + c]
                            == self.next_cell(r, c),
                    forall|c: int|
                        0 <= c < col ==> v@[row * self.width + c] == self.next_cell(row as int, c),
                decreases self.width - col,
            {
                let n = self.get_num_alive_neighbours(row, col);
                let idx = self.flat_index(row, col);
                let next = self.grid[idx].set_state(n);
                let ghost pre = v@;
                v.push(next);
                proof {
                    assert forall|r: int, c: int|
                        0 <= r < row && 0 <= c < self.width implies v@[r * self.width + c]
                        == self.next_cell(r, c) by {
                        vstd::arithmetic::mul::lemma_mul_inequality(r, row - 1, self.width as int);
                        assert((row - 1) * self.width + self.width == row * self.width)
                            by (nonlinear_arith);
                        assert(r * self.width + c < pre.len());
                        assert(v@[r * self.width + c] == pre[r * self.width + c]);
                    }
                }
                col = col + 1;
            }
            proof {
                assert((row + 1) * self.width == row * self.width + self.width) by (nonlinear_arith);
            }
            row = row + 1;
        }
        proof {
            self.lemma_row_major_is_evolved(v@);
        }
        v
    }

    /// A buffer that matches `next_cell` at every `(row, col)` position and
    /// has one slot per position is exactly the evolved sequence.
    proof fn lemma_row_major_is_evolved(&self, s: Seq<Cell>)
        requires
            self.wf(),
            s.len() == self.height * self.width,
            forall|r: int, c: int|
                0 <= r < self.height && 0 <= c < self.width ==> s[r * self.width + c]
                    == self.next_cell(r, c),
        ensures
            s == self.evolved(),
    {
        let w = self.width as int;
        let h = self.height as int;
        assert(h * w == w * h) by (nonlinear_arith);
        assert forall|i: int| 0 <= i < s.len() implies s[i] == self.evolved()[i] by {
            let r = i / w;
            let c = i % w;
            vstd::arithmetic::div_mod::lemma_fundamental_div_mod(i, w);
            vstd::arithmetic::div_mod::lemma_mod_division_less_than_divisor(i, w);
            vstd::arithmetic::div_mod::lemma_div_pos_is_pos(i, w);
            assert(i == w * r + c);
            assert(w * r == r * w) by (nonlinear_arith);
            assert(r < h) by {
                if r >= h {
                    assert(w * r >= w * h) by (nonlinear_arith)
                        requires
                            r >= h && w >= 1,
                    ;
                }
            }
            assert(s[r * w + c] == self.next_cell(r, c));
        }
        assert(s =~= self.evolved());
    }

    /// Replaces the grid with the next generation, computed as if every cell
    /// updated simultaneously: the new buffer is built entirely from a
    /// read-only snapshot of the old one and swapped in afterwards. The
    /// dimensions never change.
    pub fn evolve(&mut self)
        requires
            old(self).wf(),
        ensures
            final(self).width == old(self).width,
            final(self).height == old(self).height,
            final(self).wf(),
            final(self).grid@ == old(self).evolved(),
            forall|r: int, c: int|
                old(self).in_bounds(r, c) ==> final(self).cell_at(r, c) == old(self).next_cell(
                    r,
                    c,
                ),
    {
        let new_grid = self.compute_next();
        self.grid = new_grid;
    }
}

/// Relies on rand::random::<bool>(): one draw from the thread-local uniform
/// generator. Nothing is promised of the value, so every caller must hold
/// for both outcomes.
#[verifier::external_body]
fn random_bool() -> bool {
    rand::random::<bool>()
}

/// Determinism of the transition: two worlds holding the same generation on
/// the same dimensions evolve to the same next generation, so stepping twice
/// from one layout cannot diverge.
pub proof fn lemma_evolve_deterministic(a: World, b: World)
    requires
        a.wf(),
        b.wf(),
        a.width == b.width,
        a.height == b.height,
        a.grid@ == b.grid@,
    ensures
        a.evolved() == b.evolved(),
{
    assert forall|i: int| 0 <= i < a.evolved().len() implies a.evolved()[i] == b.evolved()[i] by {
        let w = a.width as int;
        assert(a.neighbor_count(i / w, i % w) == b.neighbor_count(i / w, i % w));
    }
    assert(a.evolved() =~= b.evolved());
}

/// The count bound: on any grid, the living-neighbor count of an in-bounds
/// position lies between 0 and 8, there being only eight neighbor offsets.
pub proof fn lemma_neighbor_count_bound(g: World, row: int, col: int)
    requires
        g.wf(),
        g.in_bounds(row, col),
    ensures
        0 <= g.neighbor_count(row, col) <= 8,
{
}

/// An in-bounds position's flat index lies below `width * height`.
proof fn lemma_flat_index_in_range(row: int, col: int, w: int, h: int)
    requires
        0 <= row < h,
        0 <= col < w,
    ensures
        0 <= row * w + col < w * h,
{
    broadcast use vstd::arithmetic::mul::lemma_mul_inequality;

    assert(row * w <= (h - 1) * w);
    assert((h - 1) * w + w == w * h) by (nonlinear_arith);
}

} // verus!
