use tetris_core::board::TetrisBoard;
use tetris_core::clear::{clear_full_rows, is_row_full};
use tetris_core::shapes::Colors;
use tetris_core::{BOARD_HEIGHT, BOARD_WIDTH};

fn fill_row(board: &mut TetrisBoard, y: usize, color: Colors) {
    for x in 0..BOARD_WIDTH {
        board.set_cell_colour(x, y, color);
    }
}

#[test]
fn row_full_detection() {
    let mut board = TetrisBoard::new();
    assert!(!is_row_full(&board, 0));
    fill_row(&mut board, 0, Colors::Red);
    assert!(is_row_full(&board, 0));
    board.set_cell_colour(4, 0, Colors::Empty);
    assert!(!is_row_full(&board, 0));
}

#[test]
fn clearing_an_empty_board_clears_nothing() {
    let mut board = TetrisBoard::new();
    assert_eq!(clear_full_rows(&mut board), 0);
    for x in 0..BOARD_WIDTH {
        for y in 0..BOARD_HEIGHT {
            assert_eq!(board.get(x, y), Colors::Empty);
        }
    }
}

#[test]
fn two_full_rows_compact_rows_above_by_two() {
    let mut board = TetrisBoard::new();
    fill_row(&mut board, 0, Colors::Red);
    fill_row(&mut board, 1, Colors::Red);
    board.set_cell_colour(3, 5, Colors::Blue);
    assert_eq!(clear_full_rows(&mut board), 2);
    assert_eq!(board.get(3, 3), Colors::Blue);
    assert_eq!(board.get(3, 5), Colors::Empty);
    for x in 0..BOARD_WIDTH {
        for y in 0..BOARD_HEIGHT {
            if (x, y) != (3, 3) {
                assert_eq!(board.get(x, y), Colors::Empty);
            }
        }
    }
}

#[test]
fn partial_rows_survive_in_order() {
    let mut board = TetrisBoard::new();
    board.set_cell_colour(0, 0, Colors::Lime);
    fill_row(&mut board, 1, Colors::Red);
    board.set_cell_colour(2, 2, Colors::Purple);
    board.set_cell_colour(7, 3, Colors::Yellow);
    assert_eq!(clear_full_rows(&mut board), 1);
    assert_eq!(board.get(0, 0), Colors::Lime);
    assert_eq!(board.get(2, 1), Colors::Purple);
    assert_eq!(board.get(7, 2), Colors::Yellow);
    assert_eq!(board.get(2, 2), Colors::Empty);
    assert_eq!(board.get(7, 3), Colors::Empty);
}

#[test]
fn full_top_row_clears_too() {
    let mut board = TetrisBoard::new();
    fill_row(&mut board, BOARD_HEIGHT - 1, Colors::Orange);
    assert_eq!(clear_full_rows(&mut board), 1);
    for x in 0..BOARD_WIDTH {
        assert_eq!(board.get(x, BOARD_HEIGHT - 1), Colors::Empty);
    }
}
