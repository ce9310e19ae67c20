//! The active-piece controller and game session: owns the falling piece's
//! variant, rotation and anchor, performs move/rotate/lock operations by
//! mutating the board through the collision tester, and drives spawning,
//! gravity ticks, scoring, difficulty and game-over detection.
//!
//! While a piece is falling, the invariant `logic_wf` holds: the piece is
//! painted on the board in its variant's color and every one of its cells
//! lies on the grid. Erasing the painted piece, testing a candidate
//! placement and repainting — the shape of every operation here — either
//! moves the piece or restores the board exactly.

use vstd::prelude::*;

use crate::board::{board_wf, cell, in_grid, TetrisBoard};
use crate::collision::{
    covers, erase, fits, lemma_erase_paint_id, lemma_fits_after_erase, lemma_paint_cells,
    lemma_paint_erase_id, lemma_paint_painted, lemma_piece_anchor_bounds, paint, painted,
    spec_fits,
};
use crate::shapes::{color_of, Colors, Tetrominos};
use crate::{BOARD_HEIGHT, BOARD_WIDTH};

verus! {

/// The spawn anchor column, `BOARD_WIDTH / 2 - 2`.
pub const SPAWN_X: i32 = 3;

/// The spawn anchor row, `BOARD_HEIGHT - 1`.
pub const SPAWN_Y: i32 = 23;

/// The falling-piece controller together with the session's score and
/// difficulty counters. `current_shape` is `None` while no piece is falling;
/// `current_color` caches the variant's fixed color for rendering.
pub struct TetrisLogic {
    pub x: i32,
    pub y: i32,
    pub rot: usize,
    pub current_shape: Option<Tetrominos>,
    pub current_color: Colors,
    pub difficulty: usize,
    pub score: usize,
}

/// Well-formedness of a controller over a board view: the board has its
/// fixed size and, while a piece is falling, its rotation index is reduced,
/// its color is its variant's, and it is painted wholly on the grid.
pub open spec fn logic_wf(l: TetrisLogic, b: Seq<Colors>) -> bool {
    board_wf(b) && match l.current_shape {
        Some(t) => l.rot < 4 && l.current_color == color_of(t) && painted(
            b,
            t,
            l.rot as int,
            l.x as int,
            l.y as int,
            l.current_color,
        ),
        None => true,
    }
}

/// Mask cell `(row, col)` precedes position `(ri, ci)` in the column-major
/// order in which the painting loops walk the mask.
spec fn mask_done(ci: int, ri: int, row: int, col: int) -> bool {
    col < ci || (col == ci && row < ri)
}

/// The anchor row a piece comes to rest on when dropped from `(x, y)` over
/// the piece-free board `e`: the lowest `y' <= y` reachable by single
/// downward steps that all fit. (The guard `y >= -2` only bounds the
/// recursion; no placement below the grid fits anyway.)
pub open spec fn drop_y(e: Seq<Colors>, t: Tetrominos, rot: int, x: int, y: int) -> int
    decreases y + 3,
{
    if y >= -2 && spec_fits(e, t, rot, x, y - 1) {
        drop_y(e, t, rot, x, y - 1)
    } else {
        y
    }
}

/// Where a rotation to `nrot` lands the anchor column: in place if the
/// rotated piece fits there, else kicked one column right, else one column
/// left of the original, else nowhere — the rotation is abandoned.
pub open spec fn kick_x(e: Seq<Colors>, t: Tetrominos, nrot: int, x: int, y: int) -> Option<
    int,
> {
    if spec_fits(e, t, nrot, x, y) {
        Some(x)
    } else if spec_fits(e, t, nrot, x + 1, y) {
        Some(x + 1)
    } else if spec_fits(e, t, nrot, x - 1, y) {
        Some(x - 1)
    } else {
        None
    }
}

impl TetrisLogic {
    /// A fresh controller: no falling piece, score and difficulty zero.
    pub fn new() -> (l: TetrisLogic)
        ensures
            l.current_shape is None,
            l.score == 0,
            l.difficulty == 0,
    {
        TetrisLogic {
            x: 0,
            y: 0,
            rot: 0,
            current_shape: None,
            current_color: Colors::Red,
            difficulty: 0,
            score: 0,
        }
    }

    /// Sets every grid cell covered by the current piece to `color`,
    /// clipping mask cells that fall off the grid; all other cells keep
    /// their colors.
    #[verifier::loop_isolation(false)]
    fn paint_piece(&self, board: &mut TetrisBoard, color: Colors)
        requires
            board_wf(old(board)@),
            self.current_shape is Some,
            self.rot < 4,
        ensures
            board_wf(final(board)@),
            final(board)@ == paint(
                old(board)@,
                self.current_shape->Some_0,
                self.rot as int,
                self.x as int,
                self.y as int,
                color,
            ),
    {
        let ghost o = old(board)@;
        let ghost t = self.current_shape->Some_0;
        let ghost px = self.x as int;
        let ghost py = self.y as int;
        let tv = self.current_shape.unwrap();
        let mut c: usize = 0;
        while c < 4
            invariant
                c <= 4,
                board_wf(board@),
                forall|cx: int, cy: int| #[trigger]
                    in_grid(cx, cy) ==> cell(board@, cx, cy) == (if covers(
                        t,
                        self.rot as int,
                        px,
                        py,
                        cx,
                        cy,
                    ) && mask_done(c as int, 0, py - cy, cx - px) {
                        color
                    } else {
                        cell(o, cx, cy)
                    }),
            decreases 4 - c,
        {
            let mut r: usize = 0;
            while r < 4
                invariant
                    c < 4,
                    r <= 4,
                    board_wf(board@),
                    forall|cx: int, cy: int| #[trigger]
                        in_grid(cx, cy) ==> cell(board@, cx, cy) == (if covers(
                            t,
                            self.rot as int,
                            px,
                            py,
                            cx,
                            cy,
                        ) && mask_done(c as int, r as int, py - cy, cx - px) {
                            color
                        } else {
                            cell(o, cx, cy)
                        }),
                decreases 4 - r,
            {
                if tv.get_shape(self.rot, r, c) {
                    let tx = self.x as i64 + c as i64;
                    let ty = self.y as i64 - r as i64;
                    if tx >= 0 && ty >= 0 && tx < BOARD_WIDTH as i64 && ty < BOARD_HEIGHT as i64 {
                        board.set_cell_colour(tx as usize, ty as usize, color);
                    }
                }
                r = r + 1;
            }
            c = c + 1;
        }
        proof {
            lemma_paint_cells(o, t, self.rot as int, px, py, color);
            crate::board::lemma_cellwise_eq(board@, paint(o, t, self.rot as int, px, py, color));
        }
    }

    /// Paints the current piece onto the board in its color.
    pub fn draw(&self, board: &mut TetrisBoard)
        requires
            board_wf(old(board)@),
            self.current_shape is Some,
            self.rot < 4,
        ensures
            board_wf(final(board)@),
            final(board)@ == paint(
                old(board)@,
                self.current_shape->Some_0,
                self.rot as int,
                self.x as int,
                self.y as int,
                self.current_color,
            ),
    {
        self.paint_piece(board, self.current_color);
    }

    /// Erases the current piece's cells from the board (sets them `Empty`).
    pub fn undraw(&self, board: &mut TetrisBoard)
        requires
            board_wf(old(board)@),
            self.current_shape is Some,
            self.rot < 4,
        ensures
            board_wf(final(board)@),
            final(board)@ == erase(
                old(board)@,
                self.current_shape->Some_0,
                self.rot as int,
                self.x as int,
                self.y as int,
            ),
    {
        self.paint_piece(board, Colors::Empty);
    }

    /// Whether the current piece fits on the board at its own position and
    /// rotation.
    pub fn test(&self, board: &TetrisBoard) -> (r: bool)
        requires
            board_wf(board@),
            self.current_shape is Some,
            self.rot < 4,
        ensures
            r == spec_fits(
                board@,
                self.current_shape->Some_0,
                self.rot as int,
                self.x as int,
                self.y as int,
            ),
    {
        fits(board, self.current_shape.unwrap(), self.rot, self.x, self.y)
    }

    /// Erases the piece, shifts its anchor by `(dx, dy)`, and tests the
    /// shifted placement against the rest of the board: if it fits the piece
    /// is repainted there, otherwise the shift is reverted and board and
    /// piece are exactly as before. Returns whether the move succeeded.
    pub fn move_by(&mut self, board: &mut TetrisBoard, dx: i32, dy: i32) -> (r: bool)
        requires
            logic_wf(*old(self), old(board)@),
            old(self).current_shape is Some,
            -1 <= dx <= 1,
            -1 <= dy <= 1,
        ensures
            logic_wf(*final(self), final(board)@),
            final(self).current_shape == old(self).current_shape,
            final(self).current_color == old(self).current_color,
            final(self).rot == old(self).rot,
            final(self).score == old(self).score,
            final(self).difficulty == old(self).difficulty,
            r == spec_fits(
                erase(
                    old(board)@,
                    old(self).current_shape->Some_0,
                    old(self).rot as int,
                    old(self).x as int,
                    old(self).y as int,
                ),
                old(self).current_shape->Some_0,
                old(self).rot as int,
                old(self).x + dx,
                old(self).y + dy,
            ),
            r ==> final(self).x == old(self).x + dx && final(self).y == old(self).y + dy && final(board)@ == paint(
                erase(
                    old(board)@,
                    old(self).current_shape->Some_0,
                    old(self).rot as int,
                    old(self).x as int,
                    old(self).y as int,
                ),
                old(self).current_shape->Some_0,
                old(self).rot as int,
                old(self).x + dx,
                old(self).y + dy,
                old(self).current_color,
            ),
            !r ==> *final(self) == *old(self) && final(board)@ == old(board)@,
    {
        let ghost t = self.current_shape->Some_0;
        proof {
            lemma_piece_anchor_bounds(
                board@,
                t,
                self.rot as int,
                self.x as int,
                self.y as int,
                self.current_color,
            );
        }
        self.undraw(board);
        self.x = self.x + dx;
        self.y = self.y + dy;
        let res = self.test(board);
        if !res {
            self.x = self.x - dx;
            self.y = self.y - dy;
        }
        self.draw(board);
        proof {
            if res {
                lemma_paint_painted(
                    erase(old(board)@, t, self.rot as int, old(self).x as int, old(self).y as int),
                    t,
                    self.rot as int,
                    self.x as int,
                    self.y as int,
                    self.current_color,
                );
            } else {
                lemma_paint_erase_id(
                    old(board)@,
                    t,
                    self.rot as int,
                    self.x as int,
                    self.y as int,
                    self.current_color,
                );
            }
        }
        res
    }

    /// Soft drop / gravity step: `move_by(board, 0, -1)`.
    pub fn down(&mut self, board: &mut TetrisBoard) -> (r: bool)
        requires
            logic_wf(*old(self), old(board)@),
            old(self).current_shape is Some,
        ensures
            logic_wf(*final(self), final(board)@),
            final(self).current_shape == old(self).current_shape,
            final(self).current_color == old(self).current_color,
            final(self).rot == old(self).rot,
            final(self).score == old(self).score,
            final(self).difficulty == old(self).difficulty,
            r == spec_fits(
                erase(
                    old(board)@,
                    old(self).current_shape->Some_0,
                    old(self).rot as int,
                    old(self).x as int,
                    old(self).y as int,
                ),
                old(self).current_shape->Some_0,
                old(self).rot as int,
                old(self).x as int,
                old(self).y - 1,
            ),
            r ==> final(self).x == old(self).x && final(self).y == old(self).y - 1 && final(board)@ == paint(
                erase(
                    old(board)@,
                    old(self).current_shape->Some_0,
                    old(self).rot as int,
                    old(self).x as int,
                    old(self).y as int,
                ),
                old(self).current_shape->Some_0,
                old(self).rot as int,
                old(self).x as int,
                old(self).y - 1,
                old(self).current_color,
            ),
            !r ==> *final(self) == *old(self) && final(board)@ == old(board)@,
    {
        self.move_by(board, 0, -1)
    }

    /// Moves the piece one column left if that fits; otherwise a no-op.
    pub fn left(&mut self, board: &mut TetrisBoard) -> (r: bool)
        requires
            logic_wf(*old(self), old(board)@),
            old(self).current_shape is Some,
        ensures
            logic_wf(*final(self), final(board)@),
            final(self).current_shape == old(self).current_shape,
            final(self).current_color == old(self).current_color,
            final(self).rot == old(self).rot,
            final(self).score == old(self).score,
            final(self).difficulty == old(self).difficulty,
            r == spec_fits(
                erase(
                    old(board)@,
                    old(self).current_shape->Some_0,
                    old(self).rot as int,
                    old(self).x as int,
                    old(self).y as int,
                ),
                old(self).current_shape->Some_0,
                old(self).rot as int,
                old(self).x - 1,
                old(self).y as int,
            ),
            r ==> final(self).x == old(self).x - 1 && final(self).y == old(self).y && final(board)@ == paint(
                erase(
                    old(board)@,
                    old(self).current_shape->Some_0,
                    old(self).rot as int,
                    old(self).x as int,
                    old(self).y as int,
                ),
                old(self).current_shape->Some_0,
                old(self).rot as int,
                old(self).x - 1,
                old(self).y as int,
                old(self).current_color,
            ),
            !r ==> *final(self) == *old(self) && final(board)@ == old(board)@,
    {
        self.move_by(board, -1, 0)
    }

    /// Moves the piece one column right if that fits; otherwise a no-op.
    pub fn right(&mut self, board: &mut TetrisBoard) -> (r: bool)
        requires
            logic_wf(*old(self), old(board)@),
            old(self).current_shape is Some,
        ensures
            logic_wf(*final(self), final(board)@),
            final(self).current_shape == old(self).current_shape,
            final(self).current_color == old(self).current_color,
            final(self).rot == old(self).rot,
            final(self).score == old(self).score,
            final(self).difficulty == old(self).difficulty,
            r == spec_fits(
                erase(
                    old(board)@,
                    old(self).current_shape->Some_0,
                    old(self).rot as int,
                    old(self).x as int,
                    old(self).y as int,
                ),
                old(self).current_shape->Some_0,
                old(self).rot as int,
                old(self).x + 1,
                old(self).y as int,
            ),
            r ==> final(self).x == old(self).x + 1 && final(self).y == old(self).y && final(board)@ == paint(
                erase(
                    old(board)@,
                    old(self).current_shape->Some_0,
                    old(self).rot as int,
                    old(self).x as int,
                    old(self).y as int,
                ),
                old(self).current_shape->Some_0,
                old(self).rot as int,
                old(self).x + 1,
                old(self).y as int,
                old(self).current_color,
            ),
            !r ==> *final(self) == *old(self) && final(board)@ == old(board)@,
    {
        self.move_by(board, 1, 0)
    }

    /// Hard drop: applies downward moves until one fails, leaving the piece
    /// resting on the lowest valid row of its column.
    pub fn snap_down(&mut self, board: &mut TetrisBoard)
        requires
            logic_wf(*old(self), old(board)@),
            old(self).current_shape is Some,
        ensures
            logic_wf(*final(self), final(board)@),
            final(self).current_shape == old(self).current_shape,
            final(self).current_color == old(self).current_color,
            final(self).rot == old(self).rot,
            final(self).x == old(self).x,
            final(self).score == old(self).score,
            final(self).difficulty == old(self).difficulty,
            final(self).y == drop_y(
                erase(
                    old(board)@,
                    old(self).current_shape->Some_0,
                    old(self).rot as int,
                    old(self).x as int,
                    old(self).y as int,
                ),
                old(self).current_shape->Some_0,
                old(self).rot as int,
                old(self).x as int,
                old(self).y as int,
            ),
            final(board)@ == paint(
                erase(
                    old(board)@,
                    old(self).current_shape->Some_0,
                    old(self).rot as int,
                    old(self).x as int,
                    old(self).y as int,
                ),
                old(self).current_shape->Some_0,
                old(self).rot as int,
                old(self).x as int,
                final(self).y as int,
                old(self).current_color,
            ),
    {
        let ghost t = self.current_shape->Some_0;
        let ghost rot0 = self.rot as int;
        let ghost x0 = self.x as int;
        let ghost col0 = self.current_color;
        let ghost e = erase(old(board)@, t, rot0, x0, old(self).y as int);
        let ghost target = drop_y(e, t, rot0, x0, old(self).y as int);
        proof {
            lemma_fits_after_erase(old(board)@, t, rot0, x0, old(self).y as int, col0);
            lemma_paint_erase_id(old(board)@, t, rot0, x0, old(self).y as int, col0);
            lemma_piece_anchor_bounds(old(board)@, t, rot0, x0, old(self).y as int, col0);
        }
        let mut moved = true;
        while moved
            invariant
                logic_wf(*self, board@),
                self.current_shape is Some,
                t == self.current_shape->Some_0,
                rot0 == self.rot as int,
                x0 == self.x as int,
                col0 == self.current_color,
                self.current_shape == old(self).current_shape,
                self.current_color == old(self).current_color,
                self.rot == old(self).rot,
                self.x == old(self).x,
                self.score == old(self).score,
                self.difficulty == old(self).difficulty,
                1 <= self.y <= 25,
                spec_fits(e, t, rot0, x0, self.y as int),
                board@ == paint(e, t, rot0, x0, self.y as int, col0),
                drop_y(e, t, rot0, x0, self.y as int) == target,
                !moved ==> !spec_fits(e, t, rot0, x0, self.y - 1),
            decreases self.y, (if moved { 1int } else { 0int }),
        {
            proof {
                lemma_erase_paint_id(e, t, rot0, x0, self.y as int, col0);
            }
            moved = self.down(board);
            proof {
                if moved {
                    lemma_piece_anchor_bounds(board@, t, rot0, x0, self.y as int, col0);
                }
            }
        }
    }

    /// Shared kick logic of the two rotations: erases the piece, tries the
    /// rotation state `nrot` in place, kicked one column right, then one
    /// column left; if all three fail, rotation and position are reverted
    /// and the board is exactly as before. Returns whether the orientation
    /// changed.
    fn rotate_kick(&mut self, board: &mut TetrisBoard, nrot: usize) -> (r: bool)
        requires
            logic_wf(*old(self), old(board)@),
            old(self).current_shape is Some,
            nrot < 4,
        ensures
            logic_wf(*final(self), final(board)@),
            final(self).current_shape == old(self).current_shape,
            final(self).current_color == old(self).current_color,
            final(self).y == old(self).y,
            final(self).score == old(self).score,
            final(self).difficulty == old(self).difficulty,
            ({
                let t = old(self).current_shape->Some_0;
                let e = erase(
                    old(board)@,
                    t,
                    old(self).rot as int,
                    old(self).x as int,
                    old(self).y as int,
                );
                match kick_x(e, t, nrot as int, old(self).x as int, old(self).y as int) {
                    Some(fx) => r && final(self).rot == nrot && final(self).x == fx && final(board)@ == paint(
                        e,
                        t,
                        nrot as int,
                        fx,
                        old(self).y as int,
                        old(self).current_color,
                    ),
                    None => !r && *final(self) == *old(self) && final(board)@ == old(board)@,
                }
            }),
    {
        let ghost t = self.current_shape->Some_0;
        let ghost rot0 = self.rot as int;
        let ghost x0 = self.x as int;
        let ghost y0 = self.y as int;
        let ghost col0 = self.current_color;
        let ghost e = erase(old(board)@, t, rot0, x0, y0);
        proof {
            lemma_piece_anchor_bounds(old(board)@, t, rot0, x0, y0, col0);
        }
        let entry_rot = self.rot;
        self.undraw(board);
        self.rot = nrot;
        let mut ok = self.test(board);
        if !ok {
            self.x = self.x + 1;
            ok = self.test(board);
            if !ok {
                self.x = self.x - 2;
                ok = self.test(board);
                if !ok {
                    self.x = self.x + 1;
                    self.rot = entry_rot;
                }
            }
        }
        self.draw(board);
        proof {
            if ok {
                lemma_paint_painted(
                    e,
                    t,
                    self.rot as int,
                    self.x as int,
                    self.y as int,
                    col0,
                );
            } else {
                lemma_paint_erase_id(old(board)@, t, rot0, x0, y0, col0);
            }
        }
        ok
    }

    /// Rotates the piece a quarter-turn clockwise, with the wall-kick
    /// fallback of `kick_x`; returns whether the orientation changed.
    pub fn clockwise(&mut self, board: &mut TetrisBoard) -> (r: bool)
        requires
            logic_wf(*old(self), old(board)@),
            old(self).current_shape is Some,
        ensures
            logic_wf(*final(self), final(board)@),
            final(self).current_shape == old(self).current_shape,
            final(self).current_color == old(self).current_color,
            final(self).y == old(self).y,
            final(self).score == old(self).score,
            final(self).difficulty == old(self).difficulty,
            ({
                let t = old(self).current_shape->Some_0;
                let e = erase(
                    old(board)@,
                    t,
                    old(self).rot as int,
                    old(self).x as int,
                    old(self).y as int,
                );
                let nrot = ((old(self).rot + 1) % 4) as int;
                match kick_x(e, t, nrot, old(self).x as int, old(self).y as int) {
                    Some(fx) => r && final(self).rot == nrot && final(self).x == fx && final(board)@ == paint(e, t, nrot, fx, old(self).y as int, old(self).current_color),
                    None => !r && *final(self) == *old(self) && final(board)@ == old(board)@,
                }
            }),
    {
        self.rotate_kick(board, (self.rot + 1) % 4)
    }

    /// Rotates the piece a quarter-turn counter-clockwise, with the same
    /// (mirror-symmetric) kick fallback; returns whether the orientation
    /// changed.
    pub fn anticlockwise(&mut self, board: &mut TetrisBoard) -> (r: bool)
        requires
            logic_wf(*old(self), old(board)@),
            old(self).current_shape is Some,
        ensures
            logic_wf(*final(self), final(board)@),
            final(self).current_shape == old(self).current_shape,
            final(self).current_color == old(self).current_color,
            final(self).y == old(self).y,
            final(self).score == old(self).score,
            final(self).difficulty == old(self).difficulty,
            ({
                let t = old(self).current_shape->Some_0;
                let e = erase(
                    old(board)@,
                    t,
                    old(self).rot as int,
                    old(self).x as int,
                    old(self).y as int,
                );
                let nrot = ((old(self).rot + 3) % 4) as int;
                match kick_x(e, t, nrot, old(self).x as int, old(self).y as int) {
                    Some(fx) => r && final(self).rot == nrot && final(self).x == fx && final(board)@ == paint(e, t, nrot, fx, old(self).y as int, old(self).current_color),
                    None => !r && *final(self) == *old(self) && final(board)@ == old(board)@,
                }
            }),
    {
        self.rotate_kick(board, (self.rot + 3) % 4)
    }
}

} // verus!
