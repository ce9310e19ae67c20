//! The collision tester and the piece-painting model.
//!
//! A piece is placed by its anchor `(x, y)`: mask cell `(row, col)` maps to
//! board cell `(x + col, y - row)` — mask row 0 is the topmost row of the
//! piece, hence the subtraction. `fits` decides whether every occupied mask
//! cell maps to a valid, empty board cell; `paint` and `erase` describe what
//! drawing and undrawing a piece do to a board view.

use vstd::prelude::*;

use crate::board::{board_wf, cell, in_grid, TetrisBoard};
use crate::shapes::{shape_mask, Colors, Tetrominos};
use crate::{BOARD_CELLS, BOARD_HEIGHT, BOARD_WIDTH};

verus! {

/// Whether the piece `(t, rot)` anchored at `(x, y)` covers board cell
/// `(cx, cy)`. The mask cell responsible for a board cell is unique:
/// `row == y - cy`, `col == cx - x`.
pub open spec fn covers(t: Tetrominos, rot: int, x: int, y: int, cx: int, cy: int) -> bool {
    shape_mask(t, rot, y - cy, cx - x)
}

/// One occupied mask cell `(row, col)` of a piece anchored at `(x, y)` maps
/// to a valid, empty cell of `b`.
pub open spec fn cell_free(b: Seq<Colors>, x: int, y: int, row: int, col: int) -> bool {
    in_grid(x + col, y - row) && cell(b, x + col, y - row) == Colors::Empty
}

/// The piece `(t, rot)` anchored at `(x, y)` fits on `b`: every occupied mask
/// cell maps to a valid, empty board cell.
pub open spec fn spec_fits(b: Seq<Colors>, t: Tetrominos, rot: int, x: int, y: int) -> bool {
    forall|row: int, col: int| shape_mask(t, rot, row, col) ==> cell_free(b, x, y, row, col)
}

/// `b` with every cell covered by the piece `(t, rot)` at `(x, y)` set to
/// `color` and every other cell unchanged. Covered cells that fall outside
/// the grid are clipped away by the flat indexing.
pub open spec fn paint(
    b: Seq<Colors>,
    t: Tetrominos,
    rot: int,
    x: int,
    y: int,
    color: Colors,
) -> Seq<Colors> {
    Seq::new(
        b.len(),
        |i: int|
            if covers(t, rot, x, y, i / (BOARD_HEIGHT as int), i % (BOARD_HEIGHT as int)) {
                color
            } else {
                b[i]
            },
    )
}

/// `b` with every cell covered by the piece reset to `Empty`.
pub open spec fn erase(b: Seq<Colors>, t: Tetrominos, rot: int, x: int, y: int) -> Seq<Colors> {
    paint(b, t, rot, x, y, Colors::Empty)
}

/// The piece `(t, rot)` at `(x, y)` is painted on `b` in `color`: every
/// occupied mask cell maps into the grid and holds `color` there.
pub open spec fn painted(
    b: Seq<Colors>,
    t: Tetrominos,
    rot: int,
    x: int,
    y: int,
    color: Colors,
) -> bool {
    forall|row: int, col: int|
        shape_mask(t, rot, row, col) ==> in_grid(x + col, y - row) && cell(b, x + col, y - row)
            == color
}

/// Reads `paint` cell by cell: a covered grid cell holds the new color, any
/// other grid cell is unchanged.
pub proof fn lemma_paint_cells(
    b: Seq<Colors>,
    t: Tetrominos,
    rot: int,
    x: int,
    y: int,
    color: Colors,
)
    requires
        board_wf(b),
    ensures
        board_wf(paint(b, t, rot, x, y, color)),
        forall|cx: int, cy: int| #[trigger]
            in_grid(cx, cy) ==> cell(paint(b, t, rot, x, y, color), cx, cy) == if covers(
                t,
                rot,
                x,
                y,
                cx,
                cy,
            ) {
                color
            } else {
                cell(b, cx, cy)
            },
{
    let p = paint(b, t, rot, x, y, color);
    assert forall|cx: int, cy: int| #[trigger] in_grid(cx, cy) implies cell(p, cx, cy) == if covers(
        t,
        rot,
        x,
        y,
        cx,
        cy,
    ) {
        color
    } else {
        cell(b, cx, cy)
    } by {
        let i = cx * (BOARD_HEIGHT as int) + cy;
        vstd::arithmetic::div_mod::lemma_fundamental_div_mod_converse(
            i,
            BOARD_HEIGHT as int,
            cx,
            cy,
        );
        assert(0 <= i < BOARD_CELLS);
    }
}

/// The anchor of a piece whose cells all lie on the grid is itself confined
/// to a small range, since some central mask cell is always occupied.
pub proof fn lemma_piece_anchor_bounds(
    b: Seq<Colors>,
    t: Tetrominos,
    rot: int,
    x: int,
    y: int,
    color: Colors,
)
    requires
        0 <= rot < 4,
        painted(b, t, rot, x, y, color) || spec_fits(b, t, rot, x, y),
    ensures
        -2 <= x <= 9,
        1 <= y <= 25,
{
    crate::shapes::lemma_mask_nonempty(t, rot);
}

/// Painting a piece where it fits leaves it painted: every occupied mask
/// cell lies on the grid and now holds the piece's color.
pub proof fn lemma_paint_painted(
    b: Seq<Colors>,
    t: Tetrominos,
    rot: int,
    x: int,
    y: int,
    color: Colors,
)
    requires
        board_wf(b),
        spec_fits(b, t, rot, x, y),
    ensures
        painted(paint(b, t, rot, x, y, color), t, rot, x, y, color),
{
    let p = paint(b, t, rot, x, y, color);
    lemma_paint_cells(b, t, rot, x, y, color);
    assert forall|row: int, col: int| shape_mask(t, rot, row, col) implies in_grid(
        x + col,
        y - row,
    ) && cell(p, x + col, y - row) == color by {
        assert(cell_free(b, x, y, row, col));
        assert(covers(t, rot, x, y, x + col, y - row));
    }
}

/// Erasing a painted piece and painting it back in its color restores the
/// board exactly.
pub proof fn lemma_paint_erase_id(b: Seq<Colors>, t: Tetrominos, rot: int, x: int, y: int, color: Colors)
    requires
        board_wf(b),
        painted(b, t, rot, x, y, color),
    ensures
        paint(erase(b, t, rot, x, y), t, rot, x, y, color) == b,
{
    let e = erase(b, t, rot, x, y);
    let p = paint(e, t, rot, x, y, color);
    lemma_paint_cells(b, t, rot, x, y, Colors::Empty);
    lemma_paint_cells(e, t, rot, x, y, color);
    assert forall|cx: int, cy: int| in_grid(cx, cy) implies cell(p, cx, cy) == cell(b, cx, cy) by {
        if covers(t, rot, x, y, cx, cy) {
            assert(shape_mask(t, rot, y - cy, cx - x));
            assert(cell(b, x + (cx - x), y - (y - cy)) == color);
        }
    }
    crate::board::lemma_cellwise_eq(p, b);
}

/// Painting a piece where it fits and erasing it again restores the board:
/// the covered cells were empty before.
pub proof fn lemma_erase_paint_id(
    e: Seq<Colors>,
    t: Tetrominos,
    rot: int,
    x: int,
    y: int,
    color: Colors,
)
    requires
        board_wf(e),
        spec_fits(e, t, rot, x, y),
    ensures
        erase(paint(e, t, rot, x, y, color), t, rot, x, y) == e,
{
    let p = paint(e, t, rot, x, y, color);
    let q = erase(p, t, rot, x, y);
    lemma_paint_cells(e, t, rot, x, y, color);
    lemma_paint_cells(p, t, rot, x, y, Colors::Empty);
    assert forall|cx: int, cy: int| in_grid(cx, cy) implies cell(q, cx, cy) == cell(e, cx, cy) by {
        if covers(t, rot, x, y, cx, cy) {
            assert(shape_mask(t, rot, y - cy, cx - x));
            assert(cell_free(e, x, y, y - cy, cx - x));
        }
    }
    crate::board::lemma_cellwise_eq(q, e);
}

/// An erased piece fits back at its own place: its cells are empty there and,
/// being painted before, they all lay on the grid.
pub proof fn lemma_fits_after_erase(
    b: Seq<Colors>,
    t: Tetrominos,
    rot: int,
    x: int,
    y: int,
    color: Colors,
)
    requires
        board_wf(b),
        painted(b, t, rot, x, y, color),
    ensures
        spec_fits(erase(b, t, rot, x, y), t, rot, x, y),
{
    let e = erase(b, t, rot, x, y);
    lemma_paint_cells(b, t, rot, x, y, Colors::Empty);
    assert forall|row: int, col: int| shape_mask(t, rot, row, col) implies cell_free(
        e,
        x,
        y,
        row,
        col,
    ) by {
        assert(in_grid(x + col, y - row));
        assert(covers(t, rot, x, y, x + col, y - row));
    }
}

/// The collision tester: returns true exactly when the piece `(t, rot)`
/// anchored at `(x, y)` maps every occupied mask cell to a valid, empty cell
/// of `board`. No side effects.
#[verifier::loop_isolation(false)]
pub fn fits(board: &TetrisBoard, t: Tetrominos, rot: usize, x: i32, y: i32) -> (r: bool)
    requires
        board_wf(board@),
        rot < 4,
    ensures
        r == spec_fits(board@, t, rot as int, x as int, y as int),
{
    let mut col: usize = 0;
    while col < 4
        invariant
            col <= 4,
            forall|r2: int, c2: int|
                shape_mask(t, rot as int, r2, c2) && c2 < col ==> cell_free(
                    board@,
                    x as int,
                    y as int,
                    r2,
                    c2,
                ),
        decreases 4 - col,
    {
        let mut row: usize = 0;
        while row < 4
            invariant
                col < 4,
                row <= 4,
                forall|r2: int, c2: int|
                    shape_mask(t, rot as int, r2, c2) && c2 < col ==> cell_free(
                        board@,
                        x as int,
                        y as int,
                        r2,
                        c2,
                    ),
                forall|r2: int|
                    shape_mask(t, rot as int, r2, col as int) && r2 < row ==> cell_free(
                        board@,
                        x as int,
                        y as int,
                        r2,
                        col as int,
                    ),
            decreases 4 - row,
        {
            if t.get_shape(rot, row, col) {
                let tx = x as i64 + col as i64;
                let ty = y as i64 - row as i64;
                if tx < 0 || ty < 0 || tx >= BOARD_WIDTH as i64 || ty >= BOARD_HEIGHT as i64 {
                    proof {
                        assert(shape_mask(t, rot as int, row as int, col as int));
                    }
                    return false;
                }
                if !matches!(board.get(tx as usize, ty as usize), Colors::Empty) {
                    proof {
                        assert(shape_mask(t, rot as int, row as int, col as int));
                    }
                    return false;
                }
            }
            row = row + 1;
        }
        col = col + 1;
    }
    true
}

} // verus!
