use vstd::prelude::*;

verus! {

/// A single cell of the grid: either alive or dead.
#[derive(Clone, Copy, Debug, PartialEq, Eq, Structural)]
pub enum Cell {
    Alive,
    Dead,
}

impl Cell {
    /// True iff this cell is in the `Alive` state.
    pub open spec fn spec_is_alive(self) -> bool {
        self is Alive
    }

    /// The state this cell takes in the next generation, given the number of
    /// living cells among its eight neighbors: an alive cell survives on two
    /// or three living neighbors, a dead cell is born on exactly three, and
    /// every other case is dead.
    pub open spec fn spec_set_state(self, n: int) -> Cell {
        if (self is Alive && (n == 2 || n == 3)) || (self is Dead && n == 3) {
            Cell::Alive
        } else {
            Cell::Dead
        }
    }

    pub fn is_alive(&self) -> (r: bool)
        ensures
            r == self.spec_is_alive(),
    {
        match self {
            Cell::Alive => true,
            Cell::Dead => false,
        }
    }

    pub fn set_state(&self, n: u8) -> (r: Self)
        ensures
            r == self.spec_set_state(n as int),
    {
        match (self, n) {
            (Self::Alive, 3) => Self::Alive,
            (Self::Alive, 2) => Self::Alive,
            (Self::Dead, 3) => Self::Alive,
            (_, _) => Self::Dead,
        }
    }
}

/// A borrowed run of cells, as handed to a renderer one grid row at a time.
pub struct Row<'a> {
    cells: &'a [Cell],
}

impl<'a> View for Row<'a> {
    type V = Seq<Cell>;

    closed spec fn view(&self) -> Seq<Cell> {
        self.cells@
    }
}

impl<'a> Row<'a> {
    pub fn new(cells: &'a [Cell]) -> (r: Row<'a>)
        ensures
            r@ == cells@,
    {
        Self { cells }
    }

    /// The glyphs a renderer draws for this row: `'#'` for a living cell and
    /// a blank for a dead one, in the same order as the cells.
    pub fn glyphs(&self) -> (r: Vec<char>)
        ensures
            r@.len() == self@.len(),
            forall|i: int|
                0 <= i < self@.len() ==> r@[i] == (if self@[i] is Alive {
                    '#'
                } else {
                    ' '
                }),
    {
        let mut out: Vec<char> = Vec::new();
        let mut i: usize = 0;
        while i < self.cells.len()
            invariant
                i <= self.cells.len(),
                self.cells@ == self@,
                out@.len() == i,
                forall|k: int|
                    0 <= k < i ==> out@[k] == (if self@[k] is Alive {
                        '#'
                    } else {
                        ' '
                    }),
            decreases self.cells.len() - i,
        {
            let c = self.cells[i];
            if c.is_alive() {
                out.push('#');
            } else {
                out.push(' ');
            }
            i = i + 1;
        }
        out
    }
}

} // verus!
