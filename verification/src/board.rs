//! The 3-by-3 board: a fixed grid of cells, viewed as a sequence of nine
//! cells in row-major order. Cells are only ever written by the game manager,
//! and only from empty to occupied.

use vstd::prelude::*;

use crate::player::Cell;
use crate::player::Player;

verus! {

/// The flat index of the cell at `row`, `col`, in row-major order.
pub open spec fn cell_index(row: int, col: int) -> int {
    row * 3 + col
}

/// The view of a freshly created board: nine empty cells.
pub open spec fn empty_board() -> Seq<Cell> {
    Seq::new(9, |i: int| Cell::Empty)
}

/// A 3-by-3 grid of cells. Its view is the row-major sequence of its nine
/// cells; a well-formed board always has exactly nine.
#[derive(Debug, PartialEq, Eq)]
pub struct Board {
    cells: Vec<Cell>,
}

impl View for Board {
    type V = Seq<Cell>;

    closed spec fn view(&self) -> Seq<Cell> {
        self.cells@
    }
}

impl Board {
    /// A board holds exactly nine cells.
    pub open spec fn wf(self) -> bool {
        self@.len() == 9
    }

    /// A fresh board: all nine cells empty.
    pub fn new() -> (r: Board)
        ensures
            r.wf(),
            r@ == empty_board(),
    {
        let cells = vec![
            Cell::Empty,
            Cell::Empty,
            Cell::Empty,
            Cell::Empty,
            Cell::Empty,
            Cell::Empty,
            Cell::Empty,
            Cell::Empty,
            Cell::Empty,
        ];
        let b = Board { cells };
        proof {
            assert(b@ =~= empty_board());
        }
        b
    }

    /// The cell at the given flat index.
    pub fn at(&self, i: usize) -> (r: Cell)
        requires
            self.wf(),
            i < 9,
        ensures
            r == self@[i as int],
    {
        self.cells[i]
    }

    /// The cell at `row`, `col`.
    pub fn get(&self, row: usize, col: usize) -> (r: Cell)
        requires
            self.wf(),
            row < 3,
            col < 3,
        ensures
            r == self@[cell_index(row as int, col as int)],
    {
        self.cells[row * 3 + col]
    }

    /// Writes the cell at `row`, `col`.
    pub fn set(&mut self, row: usize, col: usize, c: Cell)
        requires
            old(self).wf(),
            row < 3,
            col < 3,
        ensures
            final(self).wf(),
            final(self)@ == old(self)@.update(cell_index(row as int, col as int), c),
    {
        let i = row * 3 + col;
        self.cells[i] = c;
    }

    /// A copy of this board with the same cells.
    pub fn snapshot(&self) -> (r: Board)
        ensures
            r@ == self@,
    {
        let mut cells: Vec<Cell> = Vec::new();
        let mut i: usize = 0;
        while i < self.cells.len()
            invariant
                i <= self.cells.len(),
                cells@ == self.cells@.subrange(0, i as int),
            decreases self.cells.len() - i,
        {
            cells.push(self.cells[i]);
            i = i + 1;
        }
        proof {
            assert(cells@ =~= self.cells@);
        }
        Board { cells }
    }
}

} // verus!
