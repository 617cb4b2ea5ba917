use falling_blocks::tetromino::Colors;
use falling_blocks::tetromino::MoveDirection;
use falling_blocks::tetromino::Tetromino;
use falling_blocks::tetromino::TetrominoRotation;
use falling_blocks::tetromino::TetrominoShape;

const ALL_SHAPES: [TetrominoShape; 7] = [
    TetrominoShape::T,
    TetrominoShape::L,
    TetrominoShape::J,
    TetrominoShape::S,
    TetrominoShape::Z,
    TetrominoShape::I,
    TetrominoShape::O,
];

const ALL_ROTATIONS: [TetrominoRotation; 4] = [
    TetrominoRotation::Zero,
    TetrominoRotation::Ninety,
    TetrominoRotation::OneEighty,
    TetrominoRotation::TwoSeventy,
];

#[test]
fn test_catalog_four_offsets_and_shape_color() {
    for shape in ALL_SHAPES {
        let reference = Tetromino::new(shape, TetrominoRotation::Zero);
        for rotation in ALL_ROTATIONS {
            let t = Tetromino::new(shape, rotation);
            assert_eq!(t.blocks.len(), 4);
            assert_eq!(t.color, reference.color);
            assert_eq!(t.shape, shape);
            assert_eq!(t.rotation, rotation);
        }
    }
}

#[test]
fn test_catalog_colors_by_shape() {
    assert_eq!(Tetromino::new(TetrominoShape::T, TetrominoRotation::Zero).color, Colors::Purple);
    assert_eq!(Tetromino::new(TetrominoShape::L, TetrominoRotation::Zero).color, Colors::Orange);
    assert_eq!(Tetromino::new(TetrominoShape::J, TetrominoRotation::Zero).color, Colors::Pink);
    assert_eq!(Tetromino::new(TetrominoShape::S, TetrominoRotation::Zero).color, Colors::Green);
    assert_eq!(Tetromino::new(TetrominoShape::Z, TetrominoRotation::Zero).color, Colors::Red);
    assert_eq!(Tetromino::new(TetrominoShape::I, TetrominoRotation::Zero).color, Colors::Blue);
    assert_eq!(Tetromino::new(TetrominoShape::O, TetrominoRotation::Zero).color, Colors::Yellow);
}

#[test]
fn test_rotate_cw_four_times_is_identity() {
    for shape in ALL_SHAPES {
        for rotation in ALL_ROTATIONS {
            let t = Tetromino::new(shape, rotation);
            let r = t
                .rotate(MoveDirection::CW)
                .rotate(MoveDirection::CW)
                .rotate(MoveDirection::CW)
                .rotate(MoveDirection::CW);
            assert_eq!(r.rotation, t.rotation);
            assert_eq!(r.blocks, t.blocks);
            assert_eq!(r.color, t.color);
            assert_eq!(r.shape, t.shape);
        }
    }
}

#[test]
fn test_rotate_cw_then_ccw_is_identity() {
    for shape in ALL_SHAPES {
        for rotation in ALL_ROTATIONS {
            let t = Tetromino::new(shape, rotation);
            let r = t.rotate(MoveDirection::CW).rotate(MoveDirection::CCW);
            assert_eq!(r.rotation, t.rotation);
            assert_eq!(r.blocks, t.blocks);
        }
    }
}

#[test]
fn test_rotate_t_zero_cw_gives_ninety_table() {
    let t = Tetromino::new(TetrominoShape::T, TetrominoRotation::Zero);
    let r = t.rotate(MoveDirection::CW);
    assert_eq!(r.rotation, TetrominoRotation::Ninety);
    assert_eq!(r.blocks, [(0, 1), (1, 1), (2, 1), (1, 2)]);
    assert_eq!(r.color, Colors::Purple);
}

#[test]
fn test_rotate_translation_direction_is_identity() {
    let t = Tetromino::new(TetrominoShape::L, TetrominoRotation::Ninety);
    let r = t.rotate(MoveDirection::Down);
    assert_eq!(r.rotation, t.rotation);
    assert_eq!(r.blocks, t.blocks);
    assert_eq!(r.shape, t.shape);
}

#[test]
fn test_z_one_eighty_table_kept_verbatim() {
    let t = Tetromino::new(TetrominoShape::Z, TetrominoRotation::OneEighty);
    assert_eq!(t.blocks, [(1, 0), (1, 1), (1, 1), (1, 2)]);
}

#[test]
fn test_pick_random_shape_draws_vary() {
    let mut seen_o = false;
    let mut distinct = std::collections::HashSet::new();
    for _ in 0..200 {
        let s = TetrominoShape::pick_random_shape();
        if matches!(s, TetrominoShape::O) {
            seen_o = true;
        }
        distinct.insert(format!("{:?}", s));
    }
    assert!(distinct.len() >= 2);
    let _ = seen_o;
}
