use tetris_core::board::TetrisBoard;
use tetris_core::collision::fits;
use tetris_core::shapes::{Colors, Tetrominos};

#[test]
fn every_variant_fits_at_spawn_on_an_empty_board() {
    let board = TetrisBoard::new();
    let variants = [
        Tetrominos::LShape,
        Tetrominos::BackLShape,
        Tetrominos::Line,
        Tetrominos::Square,
        Tetrominos::ZShape,
        Tetrominos::BackZShape,
        Tetrominos::TShape,
    ];
    for v in variants {
        for rot in 0..4 {
            assert!(fits(&board, v, rot, 3, 23));
        }
    }
}

#[test]
fn fits_rejects_out_of_bounds_cells() {
    let board = TetrisBoard::new();
    // A horizontal line spans mask columns 0..=3 of row 1.
    assert!(fits(&board, Tetrominos::Line, 0, 0, 10));
    assert!(fits(&board, Tetrominos::Line, 0, 6, 10));
    assert!(!fits(&board, Tetrominos::Line, 0, 7, 10));
    assert!(!fits(&board, Tetrominos::Line, 0, -1, 10));
    // Its occupied row sits at board row y - 1.
    assert!(fits(&board, Tetrominos::Line, 0, 0, 1));
    assert!(!fits(&board, Tetrominos::Line, 0, 0, 0));
    assert!(fits(&board, Tetrominos::Line, 0, 0, 24));
    assert!(!fits(&board, Tetrominos::Line, 0, 0, 25));
    // The square occupies mask columns 1..=2, so it may hang one column left.
    assert!(fits(&board, Tetrominos::Square, 0, -1, 10));
    assert!(!fits(&board, Tetrominos::Square, 0, -2, 10));
}

#[test]
fn fits_rejects_overlap_with_occupied_cells() {
    let mut board = TetrisBoard::new();
    assert!(fits(&board, Tetrominos::Square, 0, 3, 10));
    // The square at anchor (3, 10) covers (4..=5, 9..=10).
    board.set_cell_colour(5, 9, Colors::Red);
    assert!(!fits(&board, Tetrominos::Square, 0, 3, 10));
    // One column further left it no longer overlaps.
    assert!(fits(&board, Tetrominos::Square, 0, 2, 10));
}
