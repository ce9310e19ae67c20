//! The game session: spawning, gravity ticks, scoring, difficulty and
//! game-over detection, plus the per-frame input dispatch.
//!
//! Each gravity tick either spawns a piece (failure is game over), moves the
//! falling piece one row down, or — when it can fall no further — locks it:
//! the line-clear engine runs, the score is raised by `100 * 2^(clears-1)`,
//! the difficulty by `clears`, the ticker's interval is lowered to
//! `1 / (difficulty/10 + 2)` seconds, and a new piece is spawned at once.
//! Variant selection is the one random ingredient; every contract here holds
//! for every outcome of it, quantified over the drawn variant.

use vstd::prelude::*;

use crate::board::TetrisBoard;
use crate::clear::{clear_full_rows, compacted, kept_rows};
use crate::collision::{
    erase, fits, lemma_paint_painted, lemma_piece_anchor_bounds, paint, spec_fits,
};
use crate::logic::{drop_y, kick_x, logic_wf, TetrisLogic, SPAWN_X, SPAWN_Y};
use crate::shapes::{color_of, Colors, Tetrominos};
use crate::ticker::{ticker_wf, Ticker};
use crate::BOARD_HEIGHT;

verus! {

/// Whether the session has ended; terminal until an external reset.
#[derive(Clone, Copy, Debug, PartialEq, Eq, Hash, Default, Structural)]
pub enum GameOver {
    #[default]
    NotOver,
    GameOver,
}

/// Whether the host is currently feeding the session ticks and input.
/// Pausing is the host's affair: it stops calling the session and brackets
/// the gap with `Ticker::pause` / `Ticker::resume`.
#[derive(Clone, Copy, Debug, PartialEq, Eq, Hash, Default, Structural)]
pub enum InGameState {
    #[default]
    UnPaused,
    Paused,
}

/// The session's score, for UI label rendering.
#[derive(Clone, Copy, Debug, PartialEq, Eq, Hash, Default, Structural)]
pub struct Score {
    pub score: usize,
}

/// The session's difficulty, for UI label rendering.
#[derive(Clone, Copy, Debug, PartialEq, Eq, Hash, Default, Structural)]
pub struct Difficulty {
    pub difficulty: usize,
}

/// One frame's worth of already-debounced discrete input edges: each flag
/// fires at most one action this frame.
#[derive(Clone, Copy, Debug, PartialEq, Eq, Structural)]
pub struct InputFrame {
    pub down: bool,
    pub snap_down: bool,
    pub left: bool,
    pub right: bool,
    pub clockwise: bool,
    pub anticlockwise: bool,
}

impl InputFrame {
    /// A frame with no input edges.
    pub fn none() -> (f: InputFrame)
        ensures
            f == (InputFrame {
                down: false,
                snap_down: false,
                left: false,
                right: false,
                clockwise: false,
                anticlockwise: false,
            }),
    {
        InputFrame {
            down: false,
            snap_down: false,
            left: false,
            right: false,
            clockwise: false,
            anticlockwise: false,
        }
    }
}

/// Relies on `rand::Rng::gen_range` on `rand::thread_rng`: returns a
/// uniformly distributed value in `[0, n)`, and panics only on an empty
/// range, which the precondition rules out.
#[verifier::external_body]
fn random_below(n: u8) -> (r: u8)
    requires
        n > 0,
    ensures
        r < n,
{
    rand::Rng::gen_range(&mut rand::thread_rng(), 0..n)
}

/// A tetromino variant selected uniformly at random, 1/7 each; selection is
/// per spawn, not bag-shuffled, so repeats are possible.
pub fn random_tetromino() -> (t: Tetrominos) {
    match random_below(7) {
        0 => Tetrominos::LShape,
        1 => Tetrominos::BackLShape,
        2 => Tetrominos::Line,
        3 => Tetrominos::Square,
        4 => Tetrominos::ZShape,
        5 => Tetrominos::BackZShape,
        _ => Tetrominos::TShape,
    }
}

/// Addition on the session counters, clamped at the machine limit.
pub open spec fn sat_add(a: int, b: int) -> int {
    if a + b <= usize::MAX {
        a + b
    } else {
        usize::MAX as int
    }
}

/// `a + b`, saturating at `usize::MAX`.
fn add_saturating(a: usize, b: usize) -> (r: usize)
    ensures
        r as int == sat_add(a as int, b as int),
{
    if a <= usize::MAX - b {
        a + b
    } else {
        usize::MAX
    }
}

/// The score awarded for clearing `clears` rows at one lock event:
/// 0 for no clear, else `100 * 2^(clears - 1)`.
pub open spec fn spec_award(clears: int) -> int {
    if clears <= 0 {
        0
    } else {
        100 * vstd::arithmetic::power2::pow2((clears - 1) as nat) as int
    }
}

/// Computes the award for one lock event: doubling per extra cleared row,
/// from 100 for a single row.
pub fn award(clears: u32) -> (a: usize)
    requires
        clears <= BOARD_HEIGHT,
    ensures
        a as int == spec_award(clears as int),
{
    if clears == 0 {
        return 0;
    }
    let mut pw: usize = 1;
    let mut i: u32 = 0;
    proof {
        vstd::arithmetic::power2::lemma2_to64();
    }
    while i < clears - 1
        invariant
            1 <= clears <= BOARD_HEIGHT,
            i <= clears - 1,
            pw as int == vstd::arithmetic::power2::pow2(i as nat),
        decreases clears - 1 - i,
    {
        proof {
            vstd::arithmetic::power2::lemma2_to64();
            if (i as nat) < 22 {
                vstd::arithmetic::power2::lemma_pow2_strictly_increases(i as nat, 22);
            }
            vstd::arithmetic::power2::lemma_pow2_unfold((i + 1) as nat);
        }
        pw = pw * 2;
        i = i + 1;
    }
    proof {
        vstd::arithmetic::power2::lemma2_to64();
        if ((clears - 1) as nat) < 23 {
            vstd::arithmetic::power2::lemma_pow2_strictly_increases((clears - 1) as nat, 23);
        }
    }
    100 * pw
}

/// The gravity interval for difficulty `d`, in microseconds:
/// `1 / (d/10 + 2)` seconds, i.e. `10_000_000 / (d + 20)` microseconds,
/// floored to whole microseconds and to at least one microsecond.
pub open spec fn spec_interval(d: int) -> int {
    if 10_000_000int / (d + 20) >= 1 {
        10_000_000int / (d + 20)
    } else {
        1
    }
}

/// The gravity interval never grows as difficulty rises.
pub proof fn lemma_interval_monotonic(d1: int, d2: int)
    requires
        0 <= d1 <= d2,
    ensures
        spec_interval(d2) <= spec_interval(d1),
{
    vstd::arithmetic::div_mod::lemma_div_is_ordered_by_denominator(
        10_000_000,
        d1 + 20,
        d2 + 20,
    );
}

/// A piece of variant `t` fits at the fixed spawn anchor of `b`.
pub open spec fn spawn_fits(b: Seq<Colors>, t: Tetrominos) -> bool {
    spec_fits(b, t, 0, SPAWN_X as int, SPAWN_Y as int)
}

/// What a spawn attempt of variant `t` over `(l0, b0)` yields: the new
/// controller and board, and whether the spawn anchor was free for `t`. On
/// success the piece stands at the spawn anchor painted in `t`'s color at
/// rotation 0; on failure piece and board are untouched.
pub open spec fn spawn_fun(l0: TetrisLogic, b0: Seq<Colors>, t: Tetrominos) -> (
    TetrisLogic,
    Seq<Colors>,
    bool,
) {
    if spawn_fits(b0, t) {
        (
            TetrisLogic {
                x: SPAWN_X,
                y: SPAWN_Y,
                rot: 0,
                current_shape: Some(t),
                current_color: color_of(t),
                ..l0
            },
            paint(b0, t, 0, SPAWN_X as int, SPAWN_Y as int, color_of(t)),
            true,
        )
    } else {
        (l0, b0, false)
    }
}

/// Spawning variant `t` takes `(l0, b0)` to `(l1, b1)` with result `ok`:
/// exactly `spawn_fun`.
pub open spec fn spawn_outcome(
    l0: TetrisLogic,
    b0: Seq<Colors>,
    l1: TetrisLogic,
    b1: Seq<Colors>,
    t: Tetrominos,
    ok: bool,
) -> bool {
    (l1, b1, ok) == spawn_fun(l0, b0, t)
}

/// How many rows one pass of the line-clear engine removes from `b`.
pub open spec fn spec_clears(b: Seq<Colors>) -> int {
    BOARD_HEIGHT - kept_rows(b, BOARD_HEIGHT as int).len()
}

/// One gravity tick over `(l0, b0, k0)` with `t` the variant the spawner
/// draws (used only when a spawn is attempted): the new controller, board
/// and ticker, and whether the tick ended in game over.
///
/// With no piece falling the tick is a spawn attempt. With a falling piece
/// that can descend, it descends one row and nothing else changes. A piece
/// that cannot descend locks: the board compacts, the score grows by the
/// award for the cleared rows and the difficulty by their count (both
/// saturating), the ticker's interval becomes the one the new difficulty
/// calls for, and a spawn attempt follows on the compacted board.
pub open spec fn tick_fun(l0: TetrisLogic, b0: Seq<Colors>, k0: Ticker, t: Tetrominos) -> (
    TetrisLogic,
    Seq<Colors>,
    Ticker,
    bool,
) {
    match l0.current_shape {
        None => {
            let s = spawn_fun(l0, b0, t);
            (s.0, s.1, k0, !s.2)
        },
        Some(pt) => {
            let e = erase(b0, pt, l0.rot as int, l0.x as int, l0.y as int);
            if spec_fits(e, pt, l0.rot as int, l0.x as int, l0.y - 1) {
                (
                    TetrisLogic { y: (l0.y - 1) as i32, ..l0 },
                    paint(e, pt, l0.rot as int, l0.x as int, l0.y - 1, l0.current_color),
                    k0,
                    false,
                )
            } else {
                let clears = spec_clears(b0);
                let lm = TetrisLogic {
                    current_shape: None,
                    score: sat_add(l0.score as int, spec_award(clears)) as usize,
                    difficulty: sat_add(l0.difficulty as int, clears) as usize,
                    ..l0
                };
                let km = Ticker { interval: spec_interval(lm.difficulty as int) as u64, ..k0 };
                let s = spawn_fun(lm, compacted(b0), t);
                (s.0, s.1, km, !s.2)
            }
        },
    }
}

/// One gravity tick, from `(l0, b0, k0)` to `(l1, b1, k1)`, with `t` the
/// variant the spawner drew and `over` whether the tick ended in game over:
/// exactly `tick_fun`.
pub open spec fn tick_rel(
    l0: TetrisLogic,
    b0: Seq<Colors>,
    k0: Ticker,
    l1: TetrisLogic,
    b1: Seq<Colors>,
    k1: Ticker,
    t: Tetrominos,
    over: bool,
) -> bool {
    (l1, b1, k1, over) == tick_fun(l0, b0, k0, t)
}

/// The state after `ts.len()` gravity ticks applied in order, drawing the
/// variants `ts`; the last component records whether any tick of the run
/// ended in game over.
pub open spec fn run_ticks(l0: TetrisLogic, b0: Seq<Colors>, k0: Ticker, ts: Seq<Tetrominos>) -> (
    TetrisLogic,
    Seq<Colors>,
    Ticker,
    bool,
)
    decreases ts.len(),
{
    if ts.len() == 0 {
        (l0, b0, k0, false)
    } else {
        let prev = run_ticks(l0, b0, k0, ts.drop_last());
        let step = tick_fun(prev.0, prev.1, prev.2, ts.last());
        (step.0, step.1, step.2, prev.3 || step.3)
    }
}

/// The controller and board after a move of the falling piece by
/// `(dx, dy)`: shifted and repainted if the shifted placement fits the rest
/// of the board, untouched otherwise.
pub open spec fn step_move(l: TetrisLogic, b: Seq<Colors>, dx: int, dy: int) -> (
    TetrisLogic,
    Seq<Colors>,
) {
    let t = l.current_shape->Some_0;
    let e = erase(b, t, l.rot as int, l.x as int, l.y as int);
    if spec_fits(e, t, l.rot as int, l.x + dx, l.y + dy) {
        (
            TetrisLogic { x: (l.x + dx) as i32, y: (l.y + dy) as i32, ..l },
            paint(e, t, l.rot as int, l.x + dx, l.y + dy, l.current_color),
        )
    } else {
        (l, b)
    }
}

/// The controller and board after a hard drop: the piece rests at `drop_y`.
pub open spec fn step_snap(l: TetrisLogic, b: Seq<Colors>) -> (TetrisLogic, Seq<Colors>) {
    let t = l.current_shape->Some_0;
    let e = erase(b, t, l.rot as int, l.x as int, l.y as int);
    let ny = drop_y(e, t, l.rot as int, l.x as int, l.y as int);
    (
        TetrisLogic { y: ny as i32, ..l },
        paint(e, t, l.rot as int, l.x as int, ny, l.current_color),
    )
}

/// The controller and board after a rotation (clockwise when `cw`), with
/// the wall-kick fallback of `kick_x`: untouched when the rotation is
/// abandoned.
pub open spec fn step_rotate(l: TetrisLogic, b: Seq<Colors>, cw: bool) -> (
    TetrisLogic,
    Seq<Colors>,
) {
    let t = l.current_shape->Some_0;
    let e = erase(b, t, l.rot as int, l.x as int, l.y as int);
    let nrot = if cw {
        (l.rot + 1) % 4
    } else {
        (l.rot + 3) % 4
    };
    match kick_x(e, t, nrot as int, l.x as int, l.y as int) {
        Some(fx) => (
            TetrisLogic { rot: nrot as usize, x: fx as i32, ..l },
            paint(e, t, nrot as int, fx, l.y as int, l.current_color),
        ),
        None => (l, b),
    }
}

/// One frame's input dispatch: while a piece is falling, at most one of
/// each discrete action is applied, in the fixed order soft drop, hard
/// drop, left, right, clockwise, counter-clockwise; with no piece falling,
/// input does nothing.
pub open spec fn step_input(l: TetrisLogic, b: Seq<Colors>, inputs: InputFrame) -> (
    TetrisLogic,
    Seq<Colors>,
) {
    if l.current_shape is Some {
        let s1 = if inputs.down {
            step_move(l, b, 0, -1)
        } else {
            (l, b)
        };
        let s2 = if inputs.snap_down {
            step_snap(s1.0, s1.1)
        } else {
            s1
        };
        let s3 = if inputs.left {
            step_move(s2.0, s2.1, -1, 0)
        } else {
            s2
        };
        let s4 = if inputs.right {
            step_move(s3.0, s3.1, 1, 0)
        } else {
            s3
        };
        let s5 = if inputs.clockwise {
            step_rotate(s4.0, s4.1, true)
        } else {
            s4
        };
        if inputs.anticlockwise {
            step_rotate(s5.0, s5.1, false)
        } else {
            s5
        }
    } else {
        (l, b)
    }
}

impl TetrisLogic {
    /// Spawns a piece of the given variant at the fixed spawn anchor with
    /// rotation 0: paints it and returns true if the anchor region is free,
    /// else paints nothing and returns false — the caller reads failure as
    /// game over. Spawning while a piece is falling is a contract violation.
    pub fn spawn_with(&mut self, board: &mut TetrisBoard, t: Tetrominos) -> (ok: bool)
        requires
            logic_wf(*old(self), old(board)@),
            old(self).current_shape is None,
        ensures
            logic_wf(*final(self), final(board)@),
            spawn_outcome(*old(self), old(board)@, *final(self), final(board)@, t, ok),
            final(self).score == old(self).score,
            final(self).difficulty == old(self).difficulty,
            ok ==> final(self).current_shape == Some(t),
            !ok ==> *final(self) == *old(self) && final(board)@ == old(board)@,
    {
        if !fits(board, t, 0, SPAWN_X, SPAWN_Y) {
            return false;
        }
        self.current_shape = Some(t);
        self.current_color = t.get_color();
        self.x = SPAWN_X;
        self.y = SPAWN_Y;
        self.rot = 0;
        self.draw(board);
        proof {
            lemma_paint_painted(
                old(board)@,
                t,
                0,
                SPAWN_X as int,
                SPAWN_Y as int,
                color_of(t),
            );
        }
        true
    }

    /// Spawns a uniformly random variant at the spawn anchor. Whatever
    /// variant is drawn: success paints it there and failure — which is
    /// certain when the spawn region is pre-occupied for every variant —
    /// changes nothing.
    pub fn spawn(&mut self, board: &mut TetrisBoard) -> (ok: bool)
        requires
            logic_wf(*old(self), old(board)@),
            old(self).current_shape is None,
        ensures
            logic_wf(*final(self), final(board)@),
            exists|t: Tetrominos|
                spawn_outcome(*old(self), old(board)@, *final(self), final(board)@, t, ok),
            (forall|t: Tetrominos| !spawn_fits(old(board)@, t)) ==> !ok,
            final(self).score == old(self).score,
            final(self).difficulty == old(self).difficulty,
            ok ==> final(self).current_shape is Some,
            !ok ==> *final(self) == *old(self) && final(board)@ == old(board)@,
    {
        let t = random_tetromino();
        let ok = self.spawn_with(board, t);
        proof {
            assert(spawn_outcome(*old(self), old(board)@, *self, board@, t, ok));
        }
        ok
    }

    /// One gravity tick. With no piece falling, attempts a spawn; failure is
    /// game over. With a piece falling, moves it one row down; if that
    /// fails, the piece locks: rows clear, score and difficulty rise, the
    /// ticker speeds up, and a new piece is spawned at once. The whole step
    /// is `tick_rel` for the variant the spawner drew, whichever it was; and
    /// a spawn attempt over a board whose spawn region is blocked for every
    /// variant is certain to end the game with nothing changed.
    pub fn tick(&mut self, board: &mut TetrisBoard, ticker: &mut Ticker) -> (r: GameOver)
        requires
            logic_wf(*old(self), old(board)@),
        ensures
            logic_wf(*final(self), final(board)@),
            exists|t: Tetrominos|
                #[trigger] tick_rel(
                    *old(self),
                    old(board)@,
                    *old(ticker),
                    *final(self),
                    final(board)@,
                    *final(ticker),
                    t,
                    r is GameOver,
                ),
            old(self).current_shape is None && (forall|t: Tetrominos|
                !spawn_fits(old(board)@, t)) ==> r is GameOver && *final(self) == *old(self)
                && final(board)@ == old(board)@ && *final(ticker) == *old(ticker),
            final(self).score >= old(self).score,
            final(self).difficulty >= old(self).difficulty,
    {
        if self.current_shape.is_none() {
            let ghost l0 = *self;
            let ghost b0 = board@;
            let ok = self.spawn(board);
            let r = if ok {
                GameOver::NotOver
            } else {
                GameOver::GameOver
            };
            proof {
                let t = choose|t: Tetrominos| spawn_outcome(l0, b0, *self, board@, t, ok);
                assert(tick_rel(*old(self), old(board)@, *old(ticker), *self, board@, *ticker, t, r is GameOver));
                assert(exists|t2: Tetrominos|
                    #[trigger] tick_rel(*old(self), old(board)@, *old(ticker), *self, board@, *ticker, t2, r is GameOver));
            }
            r
        } else {
            let ghost l0 = *self;
            let ghost b0 = board@;
            proof {
                lemma_piece_anchor_bounds(
                    b0,
                    l0.current_shape->Some_0,
                    l0.rot as int,
                    l0.x as int,
                    l0.y as int,
                    l0.current_color,
                );
            }
            if self.down(board) {
                let r = GameOver::NotOver;
                proof {
                    let t = Tetrominos::LShape;
                    assert(*self == (TetrisLogic { y: (l0.y - 1) as i32, ..l0 }));
                    assert(tick_rel(*old(self), old(board)@, *old(ticker), *self, board@, *ticker, t, r is GameOver));
                    assert(exists|t2: Tetrominos|
                        #[trigger] tick_rel(*old(self), old(board)@, *old(ticker), *self, board@, *ticker, t2, r is GameOver));
                }
                r
            } else {
                let clears = clear_full_rows(board);
                let a = award(clears);
                self.score = add_saturating(self.score, a);
                self.difficulty = add_saturating(self.difficulty, clears as usize);
                ticker.set_interval(self.get_interval());
                self.current_shape = None;
                let ghost lm = *self;
                let ghost bm = board@;
                let ok = self.spawn(board);
                let r = if ok {
                    GameOver::NotOver
                } else {
                    GameOver::GameOver
                };
                proof {
                    let t = choose|t: Tetrominos| spawn_outcome(lm, bm, *self, board@, t, ok);
                    assert(tick_rel(*old(self), old(board)@, *old(ticker), *self, board@, *ticker, t, r is GameOver));
                    assert(exists|t2: Tetrominos|
                        #[trigger] tick_rel(*old(self), old(board)@, *old(ticker), *self, board@, *ticker, t2, r is GameOver));
                }
                r
            }
        }
    }

    /// The gravity interval that the session's difficulty calls for, in
    /// microseconds; always positive.
    pub fn get_interval(&self) -> (r: u64)
        ensures
            r as int == spec_interval(self.difficulty as int),
            r > 0,
    {
        if self.difficulty as u64 >= 10_000_000 {
            proof {
                vstd::arithmetic::div_mod::lemma_basic_div_specific_divisor(
                    self.difficulty as int + 20,
                );
            }
            1
        } else {
            let q = 10_000_000u64 / (self.difficulty as u64 + 20);
            if q == 0 {
                1
            } else {
                q
            }
        }
    }

    /// Applies one frame's already-debounced input edges through the
    /// controller, exactly as `step_input` dispatches them; score,
    /// difficulty and the falling piece's variant are untouched.
    #[verifier::rlimit(100)]
    pub fn update(&mut self, board: &mut TetrisBoard, inputs: InputFrame)
        requires
            logic_wf(*old(self), old(board)@),
        ensures
            logic_wf(*final(self), final(board)@),
            final(self).score == old(self).score,
            final(self).difficulty == old(self).difficulty,
            final(self).current_shape == old(self).current_shape,
            ({
                let s = step_input(*old(self), old(board)@, inputs);
                *final(self) == s.0 && final(board)@ == s.1
            }),
    {
        if self.current_shape.is_some() {
            if inputs.down {
                let ghost lp = *self;
                let ghost bp = board@;
                proof {
                    lemma_piece_anchor_bounds(
                        bp,
                        lp.current_shape->Some_0,
                        lp.rot as int,
                        lp.x as int,
                        lp.y as int,
                        lp.current_color,
                    );
                }
                let _ = self.down(board);
                proof {
                    assert(*self == step_move(lp, bp, 0, -1).0 && board@ == step_move(
                        lp,
                        bp,
                        0,
                        -1,
                    ).1);
                }
            }
            if inputs.snap_down {
                let ghost lp = *self;
                let ghost bp = board@;
                self.snap_down(board);
                proof {
                    assert(*self == step_snap(lp, bp).0 && board@ == step_snap(lp, bp).1);
                }
            }
            if inputs.left {
                let ghost lp = *self;
                let ghost bp = board@;
                proof {
                    lemma_piece_anchor_bounds(
                        bp,
                        lp.current_shape->Some_0,
                        lp.rot as int,
                        lp.x as int,
                        lp.y as int,
                        lp.current_color,
                    );
                }
                let _ = self.left(board);
                proof {
                    assert(*self == step_move(lp, bp, -1, 0).0 && board@ == step_move(
                        lp,
                        bp,
                        -1,
                        0,
                    ).1);
                }
            }
            if inputs.right {
                let ghost lp = *self;
                let ghost bp = board@;
                proof {
                    lemma_piece_anchor_bounds(
                        bp,
                        lp.current_shape->Some_0,
                        lp.rot as int,
                        lp.x as int,
                        lp.y as int,
                        lp.current_color,
                    );
                }
                let _ = self.right(board);
                proof {
                    assert(*self == step_move(lp, bp, 1, 0).0 && board@ == step_move(
                        lp,
                        bp,
                        1,
                        0,
                    ).1);
                }
            }
            if inputs.clockwise {
                let ghost lp = *self;
                let ghost bp = board@;
                let _ = self.clockwise(board);
                proof {
                    assert(*self == step_rotate(lp, bp, true).0 && board@ == step_rotate(
                        lp,
                        bp,
                        true,
                    ).1);
                }
            }
            if inputs.anticlockwise {
                let ghost lp = *self;
                let ghost bp = board@;
                let _ = self.anticlockwise(board);
                proof {
                    assert(*self == step_rotate(lp, bp, false).0 && board@ == step_rotate(
                        lp,
                        bp,
                        false,
                    ).1);
                }
            }
        }
    }

    /// One frame of the session, as the host drives it: consumes the whole
    /// tick intervals that have elapsed up to `now`, applies that many
    /// gravity ticks in order — `run_ticks`, for the variants drawn — and
    /// then applies this frame's input edges. Returns `GameOver` exactly
    /// when some tick of this frame ended the game.
    pub fn frame_step(
        &mut self,
        board: &mut TetrisBoard,
        ticker: &mut Ticker,
        now: u64,
        inputs: InputFrame,
    ) -> (r: GameOver)
        requires
            logic_wf(*old(self), old(board)@),
            ticker_wf(*old(ticker)),
            old(ticker).save_point is None,
            now >= old(ticker).last,
        ensures
            logic_wf(*final(self), final(board)@),
            exists|ts: Seq<Tetrominos>|
                #![trigger ts.len()]
                {
                    let n = (now - old(ticker).last) / old(ticker).interval as int;
                    let kt = Ticker {
                        last: (old(ticker).last + n * old(ticker).interval) as u64,
                        ..*old(ticker)
                    };
                    let run = run_ticks(*old(self), old(board)@, kt, ts);
                    let s = step_input(run.0, run.1, inputs);
                    &&& ts.len() == n
                    &&& *final(ticker) == run.2
                    &&& (r is GameOver) == run.3
                    &&& *final(self) == s.0
                    &&& final(board)@ == s.1
                },
    {
        let n = ticker.ticks(now);
        let ghost kt = *ticker;
        let ghost l0 = *self;
        let ghost b0 = board@;
        let ghost mut ts: Seq<Tetrominos> = Seq::empty();
        let mut over = false;
        let mut i: u64 = 0;
        while i < n
            invariant
                logic_wf(*self, board@),
                i <= n,
                ts.len() == i,
                run_ticks(l0, b0, kt, ts) == ((*self, board@, *ticker, over)),
            decreases n - i,
        {
            let ghost lm = *self;
            let ghost bm = board@;
            let ghost km = *ticker;
            let tr = self.tick(board, ticker);
            proof {
                let gov = tr is GameOver;
                let t = choose|t: Tetrominos| tick_rel(lm, bm, km, *self, board@, *ticker, t, gov);
                let ts2 = ts.push(t);
                assert(ts2.drop_last() =~= ts);
                assert(ts2.last() == t);
                assert(run_ticks(l0, b0, kt, ts2) == ((*self, board@, *ticker, over || gov)));
                ts = ts2;
            }
            if matches!(tr, GameOver::GameOver) {
                over = true;
            }
            i = i + 1;
        }
        self.update(board, inputs);
        let r = if over {
            GameOver::GameOver
        } else {
            GameOver::NotOver
        };
        r
    }
}

/// The total of a sequence of cleared-row counts.
pub open spec fn sum_clears(s: Seq<int>) -> int
    decreases s.len(),
{
    if s.len() == 0 {
        0
    } else {
        sum_clears(s.drop_last()) + s.last()
    }
}

/// Folding the session's saturating difficulty update over the cleared-row
/// counts of a sequence of lock events, starting from difficulty `d0`.
pub open spec fn fold_difficulty(d0: int, s: Seq<int>) -> int
    decreases s.len(),
{
    if s.len() == 0 {
        d0
    } else {
        sat_add(fold_difficulty(d0, s.drop_last()), s.last())
    }
}

/// The cleared-row counts of the lock events of a run of gravity ticks, in
/// order: one entry for each tick whose falling piece could not descend.
pub open spec fn run_clears(
    l0: TetrisLogic,
    b0: Seq<Colors>,
    k0: Ticker,
    ts: Seq<Tetrominos>,
) -> Seq<int>
    decreases ts.len(),
{
    if ts.len() == 0 {
        Seq::empty()
    } else {
        let prev = run_ticks(l0, b0, k0, ts.drop_last());
        let head = run_clears(l0, b0, k0, ts.drop_last());
        match prev.0.current_shape {
            None => head,
            Some(pt) => {
                let e = erase(prev.1, pt, prev.0.rot as int, prev.0.x as int, prev.0.y as int);
                if spec_fits(e, pt, prev.0.rot as int, prev.0.x as int, prev.0.y - 1) {
                    head
                } else {
                    head.push(spec_clears(prev.1))
                }
            },
        }
    }
}

/// After any run of gravity ticks, the difficulty is the starting
/// difficulty raised once per lock event by that event's cleared-row count,
/// with the saturating addition that the tick applies.
pub proof fn lemma_run_difficulty(l0: TetrisLogic, b0: Seq<Colors>, k0: Ticker, ts: Seq<Tetrominos>)
    ensures
        run_ticks(l0, b0, k0, ts).0.difficulty as int == fold_difficulty(
            l0.difficulty as int,
            run_clears(l0, b0, k0, ts),
        ),
    decreases ts.len(),
{
    if ts.len() > 0 {
        let hd = ts.drop_last();
        lemma_run_difficulty(l0, b0, k0, hd);
        let prev = run_ticks(l0, b0, k0, hd);
        let head = run_clears(l0, b0, k0, hd);
        match prev.0.current_shape {
            None => {
                assert(run_ticks(l0, b0, k0, ts).0.difficulty == prev.0.difficulty);
                assert(run_clears(l0, b0, k0, ts) == head);
            },
            Some(pt) => {
                let e = erase(prev.1, pt, prev.0.rot as int, prev.0.x as int, prev.0.y as int);
                if spec_fits(e, pt, prev.0.rot as int, prev.0.x as int, prev.0.y - 1) {
                    assert(run_ticks(l0, b0, k0, ts).0.difficulty == prev.0.difficulty);
                    assert(run_clears(l0, b0, k0, ts) == head);
                } else {
                    let c = spec_clears(prev.1);
                    crate::clear::lemma_kept_rows_range(prev.1, BOARD_HEIGHT as int);
                    assert(0 <= c);
                    assert(run_ticks(l0, b0, k0, ts).0.difficulty as int == sat_add(
                        prev.0.difficulty as int,
                        c,
                    ));
                    assert(head.push(c).drop_last() =~= head);
                    assert(head.push(c).last() == c);
                    assert(run_clears(l0, b0, k0, ts) == head.push(c));
                    assert(fold_difficulty(l0.difficulty as int, head.push(c)) == sat_add(
                        fold_difficulty(l0.difficulty as int, head),
                        c,
                    ));
                }
            },
        }
    }
}

/// After any number of lock events, the difficulty equals its starting
/// value plus the sum of the cleared-row counts over all lock events, as
/// long as that total fits the counter.
pub proof fn lemma_difficulty_is_sum(d0: int, s: Seq<int>)
    requires
        0 <= d0,
        forall|i: int| 0 <= i < s.len() ==> 0 <= #[trigger] s[i],
        d0 + sum_clears(s) <= usize::MAX,
    ensures
        fold_difficulty(d0, s) == d0 + sum_clears(s),
    decreases s.len(),
{
    if s.len() > 0 {
        let p = s.drop_last();
        assert(forall|i: int| 0 <= i < p.len() ==> #[trigger] p[i] == s[i]);
        assert(s.last() == s[s.len() - 1]);
        lemma_difficulty_is_sum(d0, p);
    }
}

} // verus!
