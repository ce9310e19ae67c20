//! The board: a fixed `BOARD_WIDTH` x `BOARD_HEIGHT` grid of cell colors.
//!
//! Cells are addressed by `(x, y)` with `x` in `[0, BOARD_WIDTH)` and `y` in
//! `[0, BOARD_HEIGHT)`, `y` increasing upward. Occupancy has no separate
//! representation: a cell is occupied exactly when its color is not `Empty`.
//! The grid is stored column-major as one flat vector; the view is that flat
//! sequence and `cell` reads it by coordinates.

use vstd::prelude::*;

use crate::shapes::Colors;
use crate::{BOARD_CELLS, BOARD_HEIGHT, BOARD_WIDTH};

verus! {

/// The board coordinates of one displayed cell, for a host that renders the
/// grid as one visual entity per cell.
pub struct TetrisCell {
    pub x: usize,
    pub y: usize,
}

impl TetrisCell {
    pub fn new(x: usize, y: usize) -> (c: TetrisCell)
        ensures
            c.x == x,
            c.y == y,
    {
        TetrisCell { x, y }
    }

    pub fn location(&self) -> (l: (usize, usize))
        ensures
            l.0 == self.x,
            l.1 == self.y,
    {
        (self.x, self.y)
    }
}

/// A board view is well formed when it holds exactly one color per grid cell.
pub open spec fn board_wf(b: Seq<Colors>) -> bool {
    b.len() == BOARD_CELLS
}

/// The color of cell `(x, y)` in a board view.
pub open spec fn cell(b: Seq<Colors>, x: int, y: int) -> Colors {
    b[x * (BOARD_HEIGHT as int) + y]
}

/// Whether `(x, y)` lies on the grid.
pub open spec fn in_grid(x: int, y: int) -> bool {
    0 <= x < BOARD_WIDTH && 0 <= y < BOARD_HEIGHT
}

/// Row `y` is full when every cell of it is occupied.
pub open spec fn row_full(b: Seq<Colors>, y: int) -> bool {
    forall|x: int| 0 <= x < BOARD_WIDTH ==> cell(b, x, y) != Colors::Empty
}

/// Two well-formed boards that agree on every grid cell are equal.
pub proof fn lemma_cellwise_eq(a: Seq<Colors>, b: Seq<Colors>)
    requires
        board_wf(a),
        board_wf(b),
        forall|x: int, y: int| in_grid(x, y) ==> cell(a, x, y) == cell(b, x, y),
    ensures
        a == b,
{
    assert forall|i: int| 0 <= i < BOARD_CELLS implies a[i] == b[i] by {
        let x = i / (BOARD_HEIGHT as int);
        let y = i % (BOARD_HEIGHT as int);
        vstd::arithmetic::div_mod::lemma_fundamental_div_mod(i, BOARD_HEIGHT as int);
        assert(in_grid(x, y));
        assert(cell(a, x, y) == cell(b, x, y));
    }
    assert(a =~= b);
}

/// The grid of cell colors.
pub struct TetrisBoard {
    cells: Vec<Colors>,
}

impl View for TetrisBoard {
    type V = Seq<Colors>;

    closed spec fn view(&self) -> Seq<Colors> {
        self.cells@
    }
}

impl TetrisBoard {
    /// A fresh board with every cell `Empty`.
    pub fn new() -> (b: TetrisBoard)
        ensures
            board_wf(b@),
            forall|x: int, y: int| in_grid(x, y) ==> cell(b@, x, y) == Colors::Empty,
    {
        let mut cells: Vec<Colors> = Vec::new();
        let mut i: usize = 0;
        while i < BOARD_CELLS
            invariant
                i <= BOARD_CELLS,
                cells@.len() == i,
                forall|j: int| 0 <= j < i ==> cells@[j] == Colors::Empty,
            decreases BOARD_CELLS - i,
        {
            cells.push(Colors::Empty);
            i = i + 1;
        }
        TetrisBoard { cells }
    }

    /// The color of cell `(x, y)`; out-of-bounds indices break the contract.
    pub fn get(&self, x: usize, y: usize) -> (c: Colors)
        requires
            board_wf(self@),
            x < BOARD_WIDTH,
            y < BOARD_HEIGHT,
        ensures
            c == cell(self@, x as int, y as int),
    {
        self.cells[x * BOARD_HEIGHT + y]
    }

    /// Writes the color of cell `(x, y)`; out-of-bounds indices break the
    /// contract. Nothing but this method mutates cell state.
    pub fn set_cell_colour(&mut self, x: usize, y: usize, color: Colors)
        requires
            board_wf(old(self)@),
            x < BOARD_WIDTH,
            y < BOARD_HEIGHT,
        ensures
            board_wf(final(self)@),
            cell(final(self)@, x as int, y as int) == color,
            forall|x2: int, y2: int|
                in_grid(x2, y2) && !(x2 == x as int && y2 == y as int) ==> #[trigger] cell(
                    final(self)@,
                    x2,
                    y2,
                ) == cell(old(self)@, x2, y2),
    {
        self.cells.set(x * BOARD_HEIGHT + y, color);
        proof {
            assert forall|x2: int, y2: int|
                in_grid(x2, y2) && !(x2 == x as int && y2 == y as int)
                    implies cell(self@, x2, y2) == cell(old(self)@, x2, y2) by {
                assert(x2 * (BOARD_HEIGHT as int) + y2 != x as int * (BOARD_HEIGHT as int)
                    + y as int) by (nonlinear_arith)
                    requires
                        0 <= x2 < 10 && 0 <= y2 < 24 && 0 <= x < 10 && 0 <= y < 24 && !(x2
                            == x as int && y2 == y as int),
                {};
            }
        }
    }

    /// A read-only view of the full grid, column-major: the cell `(x, y)` is
    /// entry `x * BOARD_HEIGHT + y`.
    pub fn board(&self) -> (v: &Vec<Colors>)
        ensures
            v@ == self@,
    {
        &self.cells
    }
}

} // verus!
