use tetris_core::shapes::{Colors, Tetrominos};

const VARIANTS: [Tetrominos; 7] = [
    Tetrominos::LShape,
    Tetrominos::BackLShape,
    Tetrominos::Line,
    Tetrominos::Square,
    Tetrominos::ZShape,
    Tetrominos::BackZShape,
    Tetrominos::TShape,
];

#[test]
fn every_mask_occupies_exactly_four_cells() {
    for v in VARIANTS {
        for rot in 0..4 {
            let mut count = 0;
            for row in 0..4 {
                for col in 0..4 {
                    if v.get_shape(rot, row, col) {
                        count += 1;
                    }
                }
            }
            assert_eq!(count, 4, "{:?} rotation {}", v, rot);
        }
    }
}

#[test]
fn line_and_square_masks() {
    for col in 0..4 {
        assert!(Tetrominos::Line.get_shape(0, 1, col));
        assert!(!Tetrominos::Line.get_shape(0, 0, col));
        assert!(Tetrominos::Line.get_shape(1, col, 2));
    }
    for rot in 0..4 {
        assert!(Tetrominos::Square.get_shape(rot, 0, 1));
        assert!(Tetrominos::Square.get_shape(rot, 0, 2));
        assert!(Tetrominos::Square.get_shape(rot, 1, 1));
        assert!(Tetrominos::Square.get_shape(rot, 1, 2));
        assert!(!Tetrominos::Square.get_shape(rot, 0, 0));
    }
}

#[test]
fn t_shape_points_up_then_right() {
    assert!(Tetrominos::TShape.get_shape(0, 0, 1));
    assert!(Tetrominos::TShape.get_shape(0, 1, 0));
    assert!(Tetrominos::TShape.get_shape(0, 1, 1));
    assert!(Tetrominos::TShape.get_shape(0, 1, 2));
    assert!(Tetrominos::TShape.get_shape(1, 0, 1));
    assert!(Tetrominos::TShape.get_shape(1, 1, 1));
    assert!(Tetrominos::TShape.get_shape(1, 1, 2));
    assert!(Tetrominos::TShape.get_shape(1, 2, 1));
}

#[test]
fn each_variant_has_its_own_color() {
    assert_eq!(Tetrominos::LShape.get_color(), Colors::Orange);
    assert_eq!(Tetrominos::BackLShape.get_color(), Colors::Blue);
    assert_eq!(Tetrominos::Line.get_color(), Colors::LightBlue);
    assert_eq!(Tetrominos::Square.get_color(), Colors::Yellow);
    assert_eq!(Tetrominos::ZShape.get_color(), Colors::Red);
    assert_eq!(Tetrominos::BackZShape.get_color(), Colors::Lime);
    assert_eq!(Tetrominos::TShape.get_color(), Colors::Purple);
    for v in VARIANTS {
        assert_ne!(v.get_color(), Colors::Empty);
    }
}
