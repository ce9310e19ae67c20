use tetris_core::board::{TetrisBoard, TetrisCell};
use tetris_core::shapes::Colors;
use tetris_core::{BOARD_HEIGHT, BOARD_WIDTH};

#[test]
fn new_board_is_all_empty() {
    let board = TetrisBoard::new();
    for x in 0..BOARD_WIDTH {
        for y in 0..BOARD_HEIGHT {
            assert_eq!(board.get(x, y), Colors::Empty);
        }
    }
}

#[test]
fn set_cell_colour_writes_one_cell() {
    let mut board = TetrisBoard::new();
    board.set_cell_colour(3, 5, Colors::Blue);
    assert_eq!(board.get(3, 5), Colors::Blue);
    for x in 0..BOARD_WIDTH {
        for y in 0..BOARD_HEIGHT {
            if (x, y) != (3, 5) {
                assert_eq!(board.get(x, y), Colors::Empty);
            }
        }
    }
    board.set_cell_colour(3, 5, Colors::Empty);
    assert_eq!(board.get(3, 5), Colors::Empty);
}

#[test]
fn board_snapshot_is_column_major() {
    let mut board = TetrisBoard::new();
    board.set_cell_colour(2, 7, Colors::Lime);
    let snapshot = board.board();
    assert_eq!(snapshot.len(), BOARD_WIDTH * BOARD_HEIGHT);
    assert_eq!(snapshot[2 * BOARD_HEIGHT + 7], Colors::Lime);
}

#[test]
fn tetris_cell_reports_its_location() {
    let cell = TetrisCell::new(4, 17);
    assert_eq!(cell.location(), (4, 17));
}
