//! The tetromino catalog: the seven piece variants, their display colors,
//! and the immutable 4 x 4 occupancy mask of each rotation state.
//!
//! A mask is addressed by `(row, col)` within the piece's bounding box;
//! row 0 is the topmost row of the piece. Rotation indices are kept in
//! `[0, 4)` by the callers.

use vstd::prelude::*;

verus! {

/// The color state of one board cell. `Empty` is the only state that means
/// "unoccupied"; each tetromino variant paints cells with its own color.
#[derive(Clone, Copy, Debug, PartialEq, Eq, Structural)]
pub enum Colors {
    Empty,
    LightBlue,
    Blue,
    Orange,
    Yellow,
    Lime,
    Purple,
    Red,
}

/// The seven tetromino variants.
#[derive(Clone, Copy, Debug, PartialEq, Eq, Structural)]
pub enum Tetrominos {
    LShape,
    BackLShape,
    Line,
    Square,
    ZShape,
    BackZShape,
    TShape,
}

/// The occupancy mask of variant `t` in rotation state `rot`: true iff the
/// bounding-box cell at `(row, col)` is part of the piece. Outside
/// `[0,4) x [0,4)`, or for a rotation index outside `[0,4)`, the mask is
/// all-false.
///
/// Each rotation state is the previous one turned a quarter-turn clockwise
/// within the piece's own box; the diagrams in `Tetrominos::get_shape` picture
/// every mask.
pub open spec fn shape_mask(t: Tetrominos, rot: int, row: int, col: int) -> bool {
    0 <= row < 4 && 0 <= col < 4 && match t {
        Tetrominos::LShape => {
            if rot == 0 {
                (row == 0 && col == 2) || (row == 1 && col <= 2)
            } else if rot == 1 {
                (col == 1 && row <= 2) || (row == 2 && col == 2)
            } else if rot == 2 {
                (row == 1 && col <= 2) || (row == 2 && col == 0)
            } else if rot == 3 {
                (row == 0 && col <= 1) || (col == 1 && row <= 2)
            } else {
                false
            }
        },
        Tetrominos::BackLShape => {
            if rot == 0 {
                (row == 0 && col == 0) || (row == 1 && col <= 2)
            } else if rot == 1 {
                (row == 0 && 1 <= col <= 2) || (col == 1 && row <= 2)
            } else if rot == 2 {
                (row == 1 && col <= 2) || (row == 2 && col == 2)
            } else if rot == 3 {
                (col == 1 && row <= 2) || (row == 2 && col == 0)
            } else {
                false
            }
        },
        Tetrominos::Line => {
            if rot == 0 {
                row == 1
            } else if rot == 1 {
                col == 2
            } else if rot == 2 {
                row == 2
            } else if rot == 3 {
                col == 1
            } else {
                false
            }
        },
        Tetrominos::Square => {
            0 <= rot < 4 && row <= 1 && 1 <= col <= 2
        },
        Tetrominos::ZShape => {
            if rot == 0 {
                (row == 0 && col <= 1) || (row == 1 && 1 <= col <= 2)
            } else if rot == 1 {
                (row == 0 && col == 2) || (row == 1 && 1 <= col <= 2) || (row == 2 && col == 1)
            } else if rot == 2 {
                (row == 1 && col <= 1) || (row == 2 && 1 <= col <= 2)
            } else if rot == 3 {
                (row == 0 && col == 1) || (row == 1 && col <= 1) || (row == 2 && col == 0)
            } else {
                false
            }
        },
        Tetrominos::BackZShape => {
            if rot == 0 {
                (row == 0 && 1 <= col <= 2) || (row == 1 && col <= 1)
            } else if rot == 1 {
                (row == 0 && col == 1) || (row == 1 && 1 <= col <= 2) || (row == 2 && col == 2)
            } else if rot == 2 {
                (row == 1 && 1 <= col <= 2) || (row == 2 && col <= 1)
            } else if rot == 3 {
                (row == 0 && col == 0) || (row == 1 && col <= 1) || (row == 2 && col == 1)
            } else {
                false
            }
        },
        Tetrominos::TShape => {
            if rot == 0 {
                (row == 0 && col == 1) || (row == 1 && col <= 2)
            } else if rot == 1 {
                (col == 1 && row <= 2) || (row == 1 && col == 2)
            } else if rot == 2 {
                (row == 1 && col <= 2) || (row == 2 && col == 1)
            } else if rot == 3 {
                (col == 1 && row <= 2) || (row == 1 && col == 0)
            } else {
                false
            }
        },
    }
}

/// The fixed display color of a variant.
pub open spec fn color_of(t: Tetrominos) -> Colors {
    match t {
        Tetrominos::LShape => Colors::Orange,
        Tetrominos::BackLShape => Colors::Blue,
        Tetrominos::Line => Colors::LightBlue,
        Tetrominos::Square => Colors::Yellow,
        Tetrominos::ZShape => Colors::Red,
        Tetrominos::BackZShape => Colors::Lime,
        Tetrominos::TShape => Colors::Purple,
    }
}

/// Every rotation state of every variant occupies one of three central mask
/// cells, so a painted piece pins its anchor to a small coordinate range.
pub proof fn lemma_mask_nonempty(t: Tetrominos, rot: int)
    requires
        0 <= rot < 4,
    ensures
        shape_mask(t, rot, 1, 1) || shape_mask(t, rot, 1, 2) || shape_mask(t, rot, 2, 1),
{
    match t {
        Tetrominos::Line => {
            assert(shape_mask(t, rot, 1, 1) || shape_mask(t, rot, 1, 2)
                || shape_mask(t, rot, 2, 1));
        },
        _ => {
            assert(shape_mask(t, rot, 1, 1));
        },
    }
}

impl Tetrominos {
    /// Whether bounding-box cell `(row, col)` of this variant is occupied in
    /// rotation state `rot`.
    ///
    /// The masks, with rotation states left to right:
    /// ```text
    /// LShape   ..X.  .X..  ....  XX..
    ///          XXX.  .X..  XXX.  .X..
    ///          ....  .XX.  X...  .X..
    ///
    /// BackL    X...  .XX.  ....  .X..
    ///          XXX.  .X..  XXX.  .X..
    ///          ....  .X..  ..X.  XX..
    ///
    /// Line     ....  ..X.  ....  .X..
    ///          XXXX  ..X.  ....  .X..
    ///          ....  ..X.  XXXX  .X..
    ///          ....  ..X.  ....  .X..
    ///
    /// Square   .XX.  (all rotation states alike)
    ///          .XX.
    ///
    /// ZShape   XX..  ..X.  ....  .X..
    ///          .XX.  .XX.  XX..  XX..
    ///          ....  .X..  .XX.  X...
    ///
    /// BackZ    .XX.  .X..  ....  X...
    ///          XX..  .XX.  .XX.  XX..
    ///          ....  ..X.  XX..  .X..
    ///
    /// TShape   .X..  .X..  ....  .X..
    ///          XXX.  .XX.  XXX.  XX..
    ///          ....  .X..  .X..  .X..
    /// ```
    pub fn get_shape(&self, rot: usize, row: usize, col: usize) -> (b: bool)
        requires
            rot < 4,
            row < 4,
            col < 4,
        ensures
            b == shape_mask(*self, rot as int, row as int, col as int),
    {
        match self {
            Tetrominos::LShape => {
                if rot == 0 {
                    (row == 0 && col == 2) || (row == 1 && col <= 2)
                } else if rot == 1 {
                    (col == 1 && row <= 2) || (row == 2 && col == 2)
                } else if rot == 2 {
                    (row == 1 && col <= 2) || (row == 2 && col == 0)
                } else {
                    (row == 0 && col <= 1) || (col == 1 && row <= 2)
                }
            },
            Tetrominos::BackLShape => {
                if rot == 0 {
                    (row == 0 && col == 0) || (row == 1 && col <= 2)
                } else if rot == 1 {
                    (row == 0 && 1 <= col && col <= 2) || (col == 1 && row <= 2)
                } else if rot == 2 {
                    (row == 1 && col <= 2) || (row == 2 && col == 2)
                } else {
                    (col == 1 && row <= 2) || (row == 2 && col == 0)
                }
            },
            Tetrominos::Line => {
                if rot == 0 {
                    row == 1
                } else if rot == 1 {
                    col == 2
                } else if rot == 2 {
                    row == 2
                } else {
                    col == 1
                }
            },
            Tetrominos::Square => {
                row <= 1 && 1 <= col && col <= 2
            },
            Tetrominos::ZShape => {
                if rot == 0 {
                    (row == 0 && col <= 1) || (row == 1 && 1 <= col && col <= 2)
                } else if rot == 1 {
                    (row == 0 && col == 2) || (row == 1 && 1 <= col && col <= 2)
                        || (row == 2 && col == 1)
                } else if rot == 2 {
                    (row == 1 && col <= 1) || (row == 2 && 1 <= col && col <= 2)
                } else {
                    (row == 0 && col == 1) || (row == 1 && col <= 1) || (row == 2 && col == 0)
                }
            },
            Tetrominos::BackZShape => {
                if rot == 0 {
                    (row == 0 && 1 <= col && col <= 2) || (row == 1 && col <= 1)
                } else if rot == 1 {
                    (row == 0 && col == 1) || (row == 1 && 1 <= col && col <= 2)
                        || (row == 2 && col == 2)
                } else if rot == 2 {
                    (row == 1 && 1 <= col && col <= 2) || (row == 2 && col <= 1)
                } else {
                    (row == 0 && col == 0) || (row == 1 && col <= 1) || (row == 2 && col == 1)
                }
            },
            Tetrominos::TShape => {
                if rot == 0 {
                    (row == 0 && col == 1) || (row == 1 && col <= 2)
                } else if rot == 1 {
                    (col == 1 && row <= 2) || (row == 1 && col == 2)
                } else if rot == 2 {
                    (row == 1 && col <= 2) || (row == 2 && col == 1)
                } else {
                    (col == 1 && row <= 2) || (row == 1 && col == 0)
                }
            },
        }
    }

    /// The fixed display color of this variant; never `Empty`.
    pub fn get_color(&self) -> (c: Colors)
        ensures
            c == color_of(*self),
            c != Colors::Empty,
    {
        match self {
            Tetrominos::LShape => Colors::Orange,
            Tetrominos::BackLShape => Colors::Blue,
            Tetrominos::Line => Colors::LightBlue,
            Tetrominos::Square => Colors::Yellow,
            Tetrominos::ZShape => Colors::Red,
            Tetrominos::BackZShape => Colors::Lime,
            Tetrominos::TShape => Colors::Purple,
        }
    }
}

} // verus!
