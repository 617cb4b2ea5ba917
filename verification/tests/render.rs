use falling_blocks::board::ActivePiece;
use falling_blocks::board::GameBoard;
use falling_blocks::render::GlyphBuffer;
use falling_blocks::tetromino::Colors;
use falling_blocks::tetromino::Tetromino;
use falling_blocks::tetromino::TetrominoRotation;
use falling_blocks::tetromino::TetrominoShape;
use falling_blocks::utils::Rect;
use falling_blocks::utils::Vec2;

fn cell_at(buf: &GlyphBuffer, y: u16, x: u16) -> Option<(char, Colors)> {
    buf.cells[(y as usize) * (buf.width as usize) + (x as usize)]
}

const TILE: [[char; 3]; 2] = [['┌', '─', '┐'], ['└', '─', '┘']];

#[test]
fn test_render_empty_board_paints_nothing() {
    let b = GameBoard::new(4, 3);
    let mut buf = GlyphBuffer::new(20, 20);
    b.render(Rect::new(1, 2, 9, 8), &mut buf);
    for y in 0..20 {
        for x in 0..20 {
            assert_eq!(cell_at(&buf, y, x), None);
        }
    }
}

#[test]
fn test_render_occupied_cell_paints_tile_pattern() {
    let mut b = GameBoard::new(4, 3);
    b.grid[1][2] = Some(Colors::Red);
    let mut buf = GlyphBuffer::new(20, 20);
    b.render(Rect::new(0, 0, 9, 8), &mut buf);
    for ty in 0..2u16 {
        for tx in 0..3u16 {
            assert_eq!(
                cell_at(&buf, 2 + ty, 6 + tx),
                Some((TILE[ty as usize][tx as usize], Colors::Red))
            );
        }
    }
    // No symbol anywhere outside the one occupied cell's tile.
    for y in 0..20u16 {
        for x in 0..20u16 {
            if !(2..4).contains(&y) || !(6..9).contains(&x) {
                assert_eq!(cell_at(&buf, y, x), None);
            }
        }
    }
}

#[test]
fn test_render_active_piece_wins_over_grid() {
    let mut b = GameBoard::new(4, 4);
    // Occupy the cell the active O piece also covers.
    b.grid[0][0] = Some(Colors::Red);
    b.active_piece = Some(ActivePiece {
        pos: Vec2::new(0, 0),
        tetromino: Tetromino::new(TetrominoShape::O, TetrominoRotation::Zero),
    });
    let mut buf = GlyphBuffer::new(20, 20);
    b.render(Rect::new(0, 0, 12, 8), &mut buf);
    // The O covers grid cells (0,0),(0,1),(1,0),(1,1): all their glyph
    // characters carry the piece's yellow, the static red never shows.
    for y in 0..4u16 {
        for x in 0..6u16 {
            let (glyph, color) = cell_at(&buf, y, x).expect("active cell symbol");
            assert_eq!(color, Colors::Yellow);
            assert_eq!(glyph, TILE[(y % 2) as usize][(x % 3) as usize]);
        }
    }
}

#[test]
fn test_render_offsets_by_region_origin() {
    let mut b = GameBoard::new(2, 2);
    b.grid[0][0] = Some(Colors::Blue);
    let mut buf = GlyphBuffer::new(30, 30);
    b.render(Rect::new(5, 7, 6, 4), &mut buf);
    assert_eq!(cell_at(&buf, 7, 5), Some(('┌', Colors::Blue)));
    assert_eq!(cell_at(&buf, 7, 6), Some(('─', Colors::Blue)));
    assert_eq!(cell_at(&buf, 7, 7), Some(('┐', Colors::Blue)));
    assert_eq!(cell_at(&buf, 8, 5), Some(('└', Colors::Blue)));
    assert_eq!(cell_at(&buf, 8, 6), Some(('─', Colors::Blue)));
    assert_eq!(cell_at(&buf, 8, 7), Some(('┘', Colors::Blue)));
    assert_eq!(cell_at(&buf, 7, 8), None);
    assert_eq!(cell_at(&buf, 6, 5), None);
}
