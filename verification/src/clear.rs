//! The line-clear engine: scans a board for full rows and compacts it,
//! reporting the count cleared.
//!
//! Clearing removes every full row, shifts all rows above each removed row
//! down while preserving their relative vertical order, and tops the board up
//! with empty rows. `kept_rows` names the surviving rows, bottom to top; the
//! contract of `clear_full_rows` says that the new board is exactly those
//! rows followed by empty ones.

use vstd::prelude::*;

use crate::board::{board_wf, cell, in_grid, row_full, TetrisBoard};
use crate::shapes::Colors;
use crate::{BOARD_HEIGHT, BOARD_WIDTH};

verus! {

/// The indices `y < upto` of rows of `b` that are not full, in increasing
/// order: the rows that survive a clear, bottom to top.
pub open spec fn kept_rows(b: Seq<Colors>, upto: int) -> Seq<int>
    decreases upto,
{
    if upto <= 0 {
        Seq::empty()
    } else if row_full(b, upto - 1) {
        kept_rows(b, upto - 1)
    } else {
        kept_rows(b, upto - 1).push(upto - 1)
    }
}

/// Every surviving row index lies under `upto`, and there are at most `upto`
/// of them.
pub proof fn lemma_kept_rows_range(b: Seq<Colors>, upto: int)
    requires
        0 <= upto,
    ensures
        kept_rows(b, upto).len() <= upto,
        forall|j: int|
            0 <= j < kept_rows(b, upto).len() ==> 0 <= #[trigger] kept_rows(b, upto)[j] < upto,
    decreases upto,
{
    if upto > 0 {
        lemma_kept_rows_range(b, upto - 1);
    }
}

/// The board after one clear pass: the surviving rows of `b`, bottom to
/// top, topped up with empty rows.
pub open spec fn compacted(b: Seq<Colors>) -> Seq<Colors> {
    Seq::new(
        b.len(),
        |i: int|
            {
                let x = i / (BOARD_HEIGHT as int);
                let y = i % (BOARD_HEIGHT as int);
                if y < kept_rows(b, BOARD_HEIGHT as int).len() {
                    cell(b, x, kept_rows(b, BOARD_HEIGHT as int)[y])
                } else {
                    Colors::Empty
                }
            },
    )
}

/// Reads `compacted` cell by cell: grid row `j` is the `j`-th surviving row
/// of `b` while one exists, and empty above that.
pub proof fn lemma_compacted_cells(b: Seq<Colors>)
    requires
        board_wf(b),
    ensures
        board_wf(compacted(b)),
        forall|x: int, y: int| #[trigger]
            in_grid(x, y) ==> cell(compacted(b), x, y) == (if y < kept_rows(
                b,
                BOARD_HEIGHT as int,
            ).len() {
                cell(b, x, kept_rows(b, BOARD_HEIGHT as int)[y])
            } else {
                Colors::Empty
            }),
{
    let k = compacted(b);
    assert forall|x: int, y: int| #[trigger] in_grid(x, y) implies cell(k, x, y) == (if y
        < kept_rows(b, BOARD_HEIGHT as int).len() {
        cell(b, x, kept_rows(b, BOARD_HEIGHT as int)[y])
    } else {
        Colors::Empty
    }) by {
        let i = x * (BOARD_HEIGHT as int) + y;
        vstd::arithmetic::div_mod::lemma_fundamental_div_mod_converse(
            i,
            BOARD_HEIGHT as int,
            x,
            y,
        );
        assert(0 <= i < b.len());
    }
}

/// Piecewise description of the surviving rows of a board whose full rows
/// are exactly `r1 < r2`, up to height `upto`.
proof fn lemma_kept_rows_two_aux(b: Seq<Colors>, r1: int, r2: int, upto: int)
    requires
        0 <= r1 < r2 < BOARD_HEIGHT,
        row_full(b, r1),
        row_full(b, r2),
        forall|y: int| 0 <= y < BOARD_HEIGHT && y != r1 && y != r2 ==> !row_full(b, y),
        0 <= upto <= BOARD_HEIGHT,
    ensures
        upto <= r1 ==> kept_rows(b, upto).len() == upto,
        r1 < upto <= r2 ==> kept_rows(b, upto).len() == upto - 1,
        r2 < upto ==> kept_rows(b, upto).len() == upto - 2,
        forall|j: int| 0 <= j < kept_rows(b, upto).len() && j < r1 ==> #[trigger] kept_rows(
            b,
            upto,
        )[j] == j,
        forall|j: int| r1 <= j < kept_rows(b, upto).len() && j < r2 - 1 ==> #[trigger] kept_rows(
            b,
            upto,
        )[j] == j + 1,
        forall|j: int| r2 - 1 <= j < kept_rows(b, upto).len() ==> #[trigger] kept_rows(b, upto)[j]
            == j + 2,
    decreases upto,
{
    if upto > 0 {
        lemma_kept_rows_two_aux(b, r1, r2, upto - 1);
    }
}

/// Clearing a board whose full rows are exactly `r1 < r2` clears those two
/// and no others: rows under `r1` stay in place, rows between the two
/// cleared rows move down by one, rows above `r2` move down by exactly two
/// — relative order preserved — and the top two rows come out empty.
pub proof fn lemma_clear_two_full_rows(b: Seq<Colors>, r1: int, r2: int)
    requires
        board_wf(b),
        0 <= r1 < r2 < BOARD_HEIGHT,
        row_full(b, r1),
        row_full(b, r2),
        forall|y: int| 0 <= y < BOARD_HEIGHT && y != r1 && y != r2 ==> !row_full(b, y),
    ensures
        BOARD_HEIGHT - kept_rows(b, BOARD_HEIGHT as int).len() == 2,
        forall|x: int, j: int|
            0 <= x < BOARD_WIDTH && 0 <= j < r1 ==> #[trigger] cell(compacted(b), x, j) == cell(
                b,
                x,
                j,
            ),
        forall|x: int, j: int|
            0 <= x < BOARD_WIDTH && r1 <= j < r2 - 1 ==> #[trigger] cell(compacted(b), x, j)
                == cell(b, x, j + 1),
        forall|x: int, j: int|
            0 <= x < BOARD_WIDTH && r2 - 1 <= j < BOARD_HEIGHT - 2 ==> #[trigger] cell(
                compacted(b),
                x,
                j,
            ) == cell(b, x, j + 2),
        forall|x: int, j: int|
            0 <= x < BOARD_WIDTH && BOARD_HEIGHT - 2 <= j < BOARD_HEIGHT ==> #[trigger] cell(
                compacted(b),
                x,
                j,
            ) == Colors::Empty,
{
    lemma_kept_rows_two_aux(b, r1, r2, BOARD_HEIGHT as int);
    lemma_compacted_cells(b);
    let k = kept_rows(b, BOARD_HEIGHT as int);
    assert forall|x: int, j: int| 0 <= x < BOARD_WIDTH && 0 <= j < r1 implies #[trigger] cell(
        compacted(b),
        x,
        j,
    ) == cell(b, x, j) by {
        assert(in_grid(x, j));
        assert(k[j] == j);
    }
    assert forall|x: int, j: int| 0 <= x < BOARD_WIDTH && r1 <= j < r2 - 1 implies #[trigger] cell(
        compacted(b),
        x,
        j,
    ) == cell(b, x, j + 1) by {
        assert(in_grid(x, j));
        assert(k[j] == j + 1);
    }
    assert forall|x: int, j: int| 0 <= x < BOARD_WIDTH && r2 - 1 <= j < BOARD_HEIGHT
        - 2 implies #[trigger] cell(compacted(b), x, j) == cell(b, x, j + 2) by {
        assert(in_grid(x, j));
        assert(k[j] == j + 2);
    }
    assert forall|x: int, j: int| 0 <= x < BOARD_WIDTH && BOARD_HEIGHT - 2 <= j
        < BOARD_HEIGHT implies #[trigger] cell(compacted(b), x, j) == Colors::Empty by {
        assert(in_grid(x, j));
    }
}

/// Whether row `y` of this board is full: every cell of it is occupied.
pub fn is_row_full(board: &TetrisBoard, y: usize) -> (r: bool)
    requires
        board_wf(board@),
        y < BOARD_HEIGHT,
    ensures
        r == row_full(board@, y as int),
{
    let mut x: usize = 0;
    while x < BOARD_WIDTH
        invariant
            x <= BOARD_WIDTH,
            board_wf(board@),
            y < BOARD_HEIGHT,
            forall|x2: int| 0 <= x2 < x ==> cell(board@, x2, y as int) != Colors::Empty,
        decreases BOARD_WIDTH - x,
    {
        if matches!(board.get(x, y), Colors::Empty) {
            return false;
        }
        x = x + 1;
    }
    true
}

/// Removes every full row of the board, shifts the rows above down without
/// reordering them, fills the top with empty rows, and returns how many rows
/// were cleared.
#[verifier::loop_isolation(false)]
#[verifier::rlimit(60)]
pub fn clear_full_rows(board: &mut TetrisBoard) -> (n: u32)
    requires
        board_wf(old(board)@),
    ensures
        board_wf(final(board)@),
        n <= BOARD_HEIGHT,
        n as int == BOARD_HEIGHT - kept_rows(old(board)@, BOARD_HEIGHT as int).len(),
        final(board)@ == compacted(old(board)@),
        forall|x: int, j: int|
            0 <= x < BOARD_WIDTH && 0 <= j < kept_rows(old(board)@, BOARD_HEIGHT as int).len()
                ==> cell(final(board)@, x, j) == cell(
                old(board)@,
                x,
                kept_rows(old(board)@, BOARD_HEIGHT as int)[j],
            ),
        forall|x: int, j: int|
            0 <= x < BOARD_WIDTH && kept_rows(old(board)@, BOARD_HEIGHT as int).len() <= j
                < BOARD_HEIGHT ==> cell(final(board)@, x, j) == Colors::Empty,
{
    let ghost o = old(board)@;
    let mut dst: usize = 0;
    let mut src: usize = 0;
    while src < BOARD_HEIGHT
        invariant
            dst <= src <= BOARD_HEIGHT,
            board_wf(board@),
            dst as int == kept_rows(o, src as int).len(),
            forall|x: int, j: int|
                0 <= x < BOARD_WIDTH && 0 <= j < dst ==> cell(board@, x, j) == cell(
                    o,
                    x,
                    kept_rows(o, src as int)[j],
                ),
            forall|x: int, y: int|
                0 <= x < BOARD_WIDTH && src <= y < BOARD_HEIGHT ==> cell(board@, x, y) == cell(
                    o,
                    x,
                    y,
                ),
        decreases BOARD_HEIGHT - src,
    {
        proof {
            lemma_kept_rows_range(o, src as int);
        }
        let full = is_row_full(board, src);
        proof {
            assert forall|x: int| 0 <= x < BOARD_WIDTH implies cell(board@, x, src as int) == cell(
                o,
                x,
                src as int,
            ) by {}
            assert(row_full(board@, src as int) == row_full(o, src as int)) by {
                if row_full(board@, src as int) {
                    assert forall|x: int| 0 <= x < BOARD_WIDTH implies cell(o, x, src as int)
                        != Colors::Empty by {
                        assert(cell(board@, x, src as int) != Colors::Empty);
                    }
                }
                if row_full(o, src as int) {
                    assert forall|x: int| 0 <= x < BOARD_WIDTH implies cell(
                        board@,
                        x,
                        src as int,
                    ) != Colors::Empty by {
                        assert(cell(o, x, src as int) != Colors::Empty);
                    }
                }
            }
        }
        if !full {
            let mut x: usize = 0;
            while x < BOARD_WIDTH
                invariant
                    x <= BOARD_WIDTH,
                    dst <= src < BOARD_HEIGHT,
                    board_wf(board@),
                    forall|x2: int, j: int|
                        0 <= x2 < BOARD_WIDTH && 0 <= j < dst ==> cell(board@, x2, j) == cell(
                            o,
                            x2,
                            kept_rows(o, src as int)[j],
                        ),
                    forall|x2: int| 0 <= x2 < x ==> cell(board@, x2, dst as int) == cell(
                        o,
                        x2,
                        src as int,
                    ),
                    forall|x2: int, y: int|
                        0 <= x2 < BOARD_WIDTH && src <= y < BOARD_HEIGHT ==> cell(board@, x2, y)
                            == cell(o, x2, y),
                decreases BOARD_WIDTH - x,
            {
                let c = board.get(x, src);
                board.set_cell_colour(x, dst, c);
                x = x + 1;
            }
            dst = dst + 1;
        }
        src = src + 1;
    }
    let mut y: usize = dst;
    while y < BOARD_HEIGHT
        invariant
            dst <= y <= BOARD_HEIGHT,
            board_wf(board@),
            dst as int == kept_rows(o, BOARD_HEIGHT as int).len(),
            forall|x: int, j: int|
                0 <= x < BOARD_WIDTH && 0 <= j < dst ==> cell(board@, x, j) == cell(
                    o,
                    x,
                    kept_rows(o, BOARD_HEIGHT as int)[j],
                ),
            forall|x: int, y2: int|
                0 <= x < BOARD_WIDTH && dst <= y2 < y ==> cell(board@, x, y2) == Colors::Empty,
        decreases BOARD_HEIGHT - y,
    {
        let mut x: usize = 0;
        while x < BOARD_WIDTH
            invariant
                x <= BOARD_WIDTH,
                dst <= y < BOARD_HEIGHT,
                board_wf(board@),
                dst as int == kept_rows(o, BOARD_HEIGHT as int).len(),
                forall|x2: int, j: int|
                    0 <= x2 < BOARD_WIDTH && 0 <= j < dst ==> cell(board@, x2, j) == cell(
                        o,
                        x2,
                        kept_rows(o, BOARD_HEIGHT as int)[j],
                    ),
                forall|x2: int, y2: int|
                    0 <= x2 < BOARD_WIDTH && dst <= y2 < y ==> cell(board@, x2, y2)
                        == Colors::Empty,
                forall|x2: int| 0 <= x2 < x ==> cell(board@, x2, y as int) == Colors::Empty,
            decreases BOARD_WIDTH - x,
        {
            board.set_cell_colour(x, y, Colors::Empty);
            x = x + 1;
        }
        y = y + 1;
    }
    proof {
        lemma_kept_rows_range(o, BOARD_HEIGHT as int);
        lemma_compacted_cells(o);
        crate::board::lemma_cellwise_eq(board@, compacted(o));
    }
    (BOARD_HEIGHT - dst) as u32
}

} // verus!
