use tetris_core::board::TetrisBoard;
use tetris_core::logic::TetrisLogic;
use tetris_core::session::{award, random_tetromino, Difficulty, GameOver, InGameState, InputFrame, Score};
use tetris_core::shapes::{Colors, Tetrominos};
use tetris_core::ticker::Ticker;
use tetris_core::BOARD_WIDTH;

#[test]
fn award_doubles_per_extra_cleared_row() {
    assert_eq!(award(0), 0);
    assert_eq!(award(1), 100);
    assert_eq!(award(2), 200);
    assert_eq!(award(3), 400);
    assert_eq!(award(4), 800);
    assert_eq!(award(5), 1600);
}

#[test]
fn interval_follows_the_difficulty_formula() {
    let mut logic = TetrisLogic::new();
    assert_eq!(logic.get_interval(), 500_000);
    logic.difficulty = 10;
    assert_eq!(logic.get_interval(), 333_333);
    logic.difficulty = 20;
    assert_eq!(logic.get_interval(), 250_000);
    logic.difficulty = 80;
    assert_eq!(logic.get_interval(), 100_000);
}

#[test]
fn interval_never_grows_as_difficulty_rises() {
    let mut logic = TetrisLogic::new();
    let mut previous = logic.get_interval();
    for d in 1..200 {
        logic.difficulty = d;
        let next = logic.get_interval();
        assert!(next <= previous);
        previous = next;
    }
}

#[test]
fn locking_a_piece_scores_and_raises_difficulty() {
    let mut logic = TetrisLogic::new();
    let mut board = TetrisBoard::new();
    let mut ticker = Ticker::new(0, logic.get_interval());
    // Fill the two bottom rows except where the square will land.
    for x in 0..BOARD_WIDTH {
        if x != 4 && x != 5 {
            board.set_cell_colour(x, 0, Colors::Red);
            board.set_cell_colour(x, 1, Colors::Red);
        }
    }
    assert!(logic.spawn_with(&mut board, Tetrominos::Square));
    logic.snap_down(&mut board);
    assert_eq!(logic.y, 1);
    // The next tick cannot descend: the piece locks and both rows clear.
    let result = logic.tick(&mut board, &mut ticker);
    assert_eq!(result, GameOver::NotOver);
    assert_eq!(logic.score, 200);
    assert_eq!(logic.difficulty, 2);
    // f(2) = 1 / (2/10 + 2) seconds = 10_000_000 / 22 microseconds.
    assert_eq!(ticker.interval, 454_545);
    // A fresh piece was spawned at once.
    assert!(logic.current_shape.is_some());
    assert_eq!(logic.y, 23);
}

#[test]
fn blocked_spawn_is_game_over_and_leaves_the_board_alone() {
    let mut logic = TetrisLogic::new();
    let mut board = TetrisBoard::new();
    let mut ticker = Ticker::new(0, logic.get_interval());
    for x in 0..BOARD_WIDTH {
        for y in 20..24 {
            board.set_cell_colour(x, y, Colors::Red);
        }
    }
    let before: Vec<Colors> = board.board().clone();
    let result = logic.tick(&mut board, &mut ticker);
    assert_eq!(result, GameOver::GameOver);
    assert!(logic.current_shape.is_none());
    assert_eq!(logic.score, 0);
    assert_eq!(*board.board(), before);
    assert!(!logic.spawn(&mut board));
    assert_eq!(*board.board(), before);
}

#[test]
fn spawn_draws_some_variant_on_an_empty_board() {
    for _ in 0..20 {
        let mut logic = TetrisLogic::new();
        let mut board = TetrisBoard::new();
        assert!(logic.spawn(&mut board));
        let variant = logic.current_shape.expect("a piece must be falling");
        assert_eq!(logic.current_color, variant.get_color());
        assert_ne!(logic.current_color, Colors::Empty);
        let _ = random_tetromino();
    }
}

#[test]
fn update_applies_each_pressed_edge_once() {
    let mut logic = TetrisLogic::new();
    let mut board = TetrisBoard::new();
    assert!(logic.spawn_with(&mut board, Tetrominos::TShape));
    let mut inputs = InputFrame::none();
    inputs.left = true;
    logic.update(&mut board, inputs);
    assert_eq!((logic.x, logic.y, logic.rot), (2, 23, 0));
    let mut inputs = InputFrame::none();
    inputs.right = true;
    inputs.down = true;
    inputs.clockwise = true;
    logic.update(&mut board, inputs);
    assert_eq!((logic.x, logic.y, logic.rot), (3, 22, 1));
    let mut inputs = InputFrame::none();
    inputs.anticlockwise = true;
    logic.update(&mut board, inputs);
    assert_eq!((logic.x, logic.y, logic.rot), (3, 22, 0));
}

#[test]
fn update_without_a_piece_is_a_no_op() {
    let mut logic = TetrisLogic::new();
    let mut board = TetrisBoard::new();
    let mut inputs = InputFrame::none();
    inputs.left = true;
    inputs.snap_down = true;
    logic.update(&mut board, inputs);
    assert!(logic.current_shape.is_none());
    assert_eq!(logic.score, 0);
}

#[test]
fn frame_step_spawns_then_applies_gravity() {
    let mut logic = TetrisLogic::new();
    let mut board = TetrisBoard::new();
    let mut ticker = Ticker::new(0, logic.get_interval());
    // Two whole intervals elapsed: the first tick spawns, the second drops.
    let result = logic.frame_step(&mut board, &mut ticker, 1_000_000, InputFrame::none());
    assert_eq!(result, GameOver::NotOver);
    assert!(logic.current_shape.is_some());
    assert_eq!(logic.y, 22);
    assert_eq!(logic.score, 0);
    // No further whole interval: nothing moves.
    let result = logic.frame_step(&mut board, &mut ticker, 1_400_000, InputFrame::none());
    assert_eq!(result, GameOver::NotOver);
    assert_eq!(logic.y, 22);
}

#[test]
fn host_facing_state_defaults() {
    assert_eq!(GameOver::default(), GameOver::NotOver);
    assert_eq!(InGameState::default(), InGameState::UnPaused);
    assert_eq!(Score::default(), Score { score: 0 });
    assert_eq!(Difficulty::default(), Difficulty { difficulty: 0 });
}
