use falling_blocks::board::GameBoard;
use falling_blocks::tetromino::Colors;
use falling_blocks::tetromino::Tetromino;
use falling_blocks::tetromino::TetrominoRotation;
use falling_blocks::tetromino::TetrominoShape;
use falling_blocks::utils::Vec2;

#[test]
fn test_new_board_is_empty() {
    let b = GameBoard::new(22, 10);
    assert_eq!(b.grid.len(), 22);
    for row in &b.grid {
        assert_eq!(row.len(), 10);
        for cell in row {
            assert!(cell.is_none());
        }
    }
    assert!(b.active_piece.is_none());
    assert_eq!(b.grid_dims_chars, Vec2::new(30, 44));
}

#[test]
fn test_commit_writes_four_cells() {
    let mut b = GameBoard::new(22, 10);
    let o = Tetromino::new(TetrominoShape::O, TetrominoRotation::Zero);
    b.draw_to_board(Vec2::new(3, 0), o);
    assert_eq!(b.grid[0][3], Some(Colors::Yellow));
    assert_eq!(b.grid[0][4], Some(Colors::Yellow));
    assert_eq!(b.grid[1][3], Some(Colors::Yellow));
    assert_eq!(b.grid[1][4], Some(Colors::Yellow));
    let occupied: usize = b
        .grid
        .iter()
        .map(|row| row.iter().filter(|c| c.is_some()).count())
        .sum();
    assert_eq!(occupied, 4);
}

#[test]
fn test_commit_disjoint_pieces_keeps_both() {
    let mut b = GameBoard::new(22, 10);
    let o = Tetromino::new(TetrominoShape::O, TetrominoRotation::Zero);
    let i = Tetromino::new(TetrominoShape::I, TetrominoRotation::Zero);
    b.draw_to_board(Vec2::new(0, 0), o);
    b.draw_to_board(Vec2::new(4, 10), i);
    assert_eq!(b.grid[0][0], Some(Colors::Yellow));
    assert_eq!(b.grid[0][1], Some(Colors::Yellow));
    assert_eq!(b.grid[1][0], Some(Colors::Yellow));
    assert_eq!(b.grid[1][1], Some(Colors::Yellow));
    assert_eq!(b.grid[11][4], Some(Colors::Blue));
    assert_eq!(b.grid[11][5], Some(Colors::Blue));
    assert_eq!(b.grid[11][6], Some(Colors::Blue));
    assert_eq!(b.grid[11][7], Some(Colors::Blue));
}

#[test]
fn test_commit_overlap_last_write_wins() {
    let mut b = GameBoard::new(22, 10);
    let o = Tetromino::new(TetrominoShape::O, TetrominoRotation::Zero);
    let s = Tetromino::new(TetrominoShape::S, TetrominoRotation::Zero);
    // O at (0, 0) covers (0,0),(0,1),(1,0),(1,1); S at (0, 0) covers
    // (1,0),(1,1),(0,1),(0,2): three shared cells.
    b.draw_to_board(Vec2::new(0, 0), o);
    b.draw_to_board(Vec2::new(0, 0), s);
    assert_eq!(b.grid[1][0], Some(Colors::Green));
    assert_eq!(b.grid[1][1], Some(Colors::Green));
    assert_eq!(b.grid[0][1], Some(Colors::Green));
    assert_eq!(b.grid[0][2], Some(Colors::Green));
    // The O cell the S does not cover keeps the first color.
    assert_eq!(b.grid[0][0], Some(Colors::Yellow));
}
