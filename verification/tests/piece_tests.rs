use tetris_core::board::TetrisBoard;
use tetris_core::logic::TetrisLogic;
use tetris_core::shapes::{Colors, Tetrominos};

fn spawned(variant: Tetrominos) -> (TetrisLogic, TetrisBoard) {
    let mut logic = TetrisLogic::new();
    let mut board = TetrisBoard::new();
    assert!(logic.spawn_with(&mut board, variant));
    (logic, board)
}

#[test]
fn spawn_paints_the_piece_at_the_spawn_anchor() {
    let (logic, board) = spawned(Tetrominos::Line);
    assert_eq!(logic.current_shape, Some(Tetrominos::Line));
    assert_eq!((logic.x, logic.y, logic.rot), (3, 23, 0));
    assert_eq!(logic.current_color, Colors::LightBlue);
    for x in 3..=6 {
        assert_eq!(board.get(x, 22), Colors::LightBlue);
    }
    assert_eq!(board.get(3, 23), Colors::Empty);
}

#[test]
fn moves_shift_and_repaint_or_revert() {
    let (mut logic, mut board) = spawned(Tetrominos::Square);
    assert!(logic.left(&mut board));
    assert_eq!(logic.x, 2);
    assert!(logic.right(&mut board));
    assert!(logic.right(&mut board));
    assert_eq!(logic.x, 4);
    assert!(logic.down(&mut board));
    assert_eq!(logic.y, 22);
    // The square occupies mask columns 1..=2, so its anchor may reach -1.
    for expected in [3, 2, 1, 0, -1] {
        assert!(logic.left(&mut board));
        assert_eq!(logic.x, expected);
    }
    let before: Vec<Colors> = board.board().clone();
    assert!(!logic.left(&mut board));
    assert_eq!(logic.x, -1);
    assert_eq!(*board.board(), before);
}

#[test]
fn move_by_matches_left_right_down() {
    let (mut logic, mut board) = spawned(Tetrominos::TShape);
    assert!(logic.move_by(&mut board, -1, 0));
    assert_eq!((logic.x, logic.y), (2, 23));
    assert!(logic.move_by(&mut board, 0, -1));
    assert_eq!((logic.x, logic.y), (2, 22));
    assert!(logic.move_by(&mut board, 1, 0));
    assert_eq!((logic.x, logic.y), (3, 22));
}

#[test]
fn snap_down_rests_on_the_floor() {
    let (mut logic, mut board) = spawned(Tetrominos::Line);
    logic.snap_down(&mut board);
    assert_eq!(logic.y, 1);
    for x in 3..=6 {
        assert_eq!(board.get(x, 0), Colors::LightBlue);
        assert_eq!(board.get(x, 1), Colors::Empty);
    }
}

#[test]
fn snap_down_rests_on_locked_content() {
    let (mut logic, mut board) = spawned(Tetrominos::Square);
    board.set_cell_colour(4, 4, Colors::Red);
    logic.snap_down(&mut board);
    // The square's lower mask row is board row y - 1, stopped just above (4, 4).
    assert_eq!(logic.y, 6);
    assert_eq!(board.get(4, 5), Colors::Yellow);
    assert_eq!(board.get(5, 5), Colors::Yellow);
}

#[test]
fn rotation_in_place_when_it_fits() {
    let (mut logic, mut board) = spawned(Tetrominos::Line);
    assert!(logic.clockwise(&mut board));
    assert_eq!((logic.rot, logic.x), (1, 3));
    for y in 20..=23 {
        assert_eq!(board.get(5, y), Colors::LightBlue);
    }
    assert!(logic.anticlockwise(&mut board));
    assert_eq!((logic.rot, logic.x), (0, 3));
}

#[test]
fn rotation_kicks_one_column_right_then_one_left() {
    // A vertical line after rotation occupies column anchor + 2, rows 20..=23.
    let (mut logic, mut board) = spawned(Tetrominos::Line);
    board.set_cell_colour(5, 21, Colors::Red);
    assert!(logic.clockwise(&mut board));
    assert_eq!((logic.rot, logic.x), (1, 4));

    let (mut logic, mut board) = spawned(Tetrominos::Line);
    board.set_cell_colour(5, 21, Colors::Red);
    board.set_cell_colour(6, 21, Colors::Red);
    assert!(logic.clockwise(&mut board));
    assert_eq!((logic.rot, logic.x), (1, 2));
}

#[test]
fn blocked_rotation_reverts_piece_and_board() {
    // Row 21 blocked under the whole piece: the vertical column that either
    // rotation aims for is blocked in place and at both kick offsets.
    let (mut logic, mut board) = spawned(Tetrominos::Line);
    board.set_cell_colour(3, 21, Colors::Red);
    board.set_cell_colour(4, 21, Colors::Red);
    board.set_cell_colour(5, 21, Colors::Red);
    board.set_cell_colour(6, 21, Colors::Red);
    let before: Vec<Colors> = board.board().clone();
    assert!(!logic.clockwise(&mut board));
    assert_eq!((logic.rot, logic.x, logic.y), (0, 3, 23));
    assert_eq!(*board.board(), before);
    assert!(!logic.anticlockwise(&mut board));
    assert_eq!((logic.rot, logic.x, logic.y), (0, 3, 23));
    assert_eq!(*board.board(), before);
}

#[test]
fn failed_down_leaves_everything_unchanged() {
    let (mut logic, mut board) = spawned(Tetrominos::Square);
    logic.snap_down(&mut board);
    assert_eq!(logic.y, 1);
    let before: Vec<Colors> = board.board().clone();
    assert!(!logic.down(&mut board));
    assert_eq!(logic.y, 1);
    assert_eq!(*board.board(), before);
}
