use vstd::prelude::*;

use crate::board::GameBoard;
use crate::board::TILE_HEIGHT;
use crate::board::TILE_WIDTH;
use crate::board::piece_covers;
use crate::board::piece_in_bounds;
use crate::tetromino::Colors;
use crate::tetromino::Tetromino;
use crate::utils::Rect;
use crate::utils::Vec2;

verus! {

/// The fixed 2-row-by-3-column glyph pattern depicting one cell's border.
pub open spec fn tile_char(tile_y: int, tile_x: int) -> char {
    if tile_y == 0 {
        if tile_x == 0 {
            '\u{250c}'
        } else if tile_x == 1 {
            '\u{2500}'
        } else {
            '\u{2510}'
        }
    } else {
        if tile_x == 0 {
            '\u{2514}'
        } else if tile_x == 1 {
            '\u{2500}'
        } else {
            '\u{2518}'
        }
    }
}

/// A rectangular character display: row-major cells, each empty or holding
/// a glyph in a color. The mapper writes frames into one of these.
pub struct GlyphBuffer {
    pub width: u16,
    pub height: u16,
    pub cells: Vec<Option<(char, Colors)>>,
}

impl GlyphBuffer {
    /// One cell slot per position.
    pub open spec fn wf(self) -> bool {
        self.cells@.len() == self.width as int * self.height as int
    }

    /// The content at display row `y`, column `x`.
    pub open spec fn at(self, y: int, x: int) -> Option<(char, Colors)> {
        self.cells@[y * self.width as int + x]
    }

    /// An all-empty display of the given dimensions.
    pub fn new(width: u16, height: u16) -> (r: GlyphBuffer)
        ensures
            r.wf(),
            r.width == width,
            r.height == height,
            forall|y: int, x: int| 0 <= y < height && 0 <= x < width ==> r.at(y, x) is None,
    {
        proof {
            lemma_dims_product_bound(width as int, height as int);
        }
        let total: usize = (width as usize) * (height as usize);
        let mut cells: Vec<Option<(char, Colors)>> = Vec::new();
        let mut i: usize = 0;
        while i < total
            invariant
                i <= total,
                cells@.len() == i,
                forall|k: int| 0 <= k < i ==> cells@[k] is None,
            decreases total - i,
        {
            cells.push(None);
            i = i + 1;
        }
        let r = GlyphBuffer { width, height, cells };
        proof {
            assert forall|y: int, x: int| 0 <= y < height && 0 <= x < width implies r.at(y, x)
                is None by {
                lemma_row_major_in_range(width as int, height as int, y, x);
            }
        }
        r
    }

    /// Paints one cell; every other cell and the dimensions stay.
    fn put(&mut self, y: u16, x: u16, glyph: char, color: Colors)
        requires
            old(self).wf(),
            y < old(self).height,
            x < old(self).width,
        ensures
            final(self).wf(),
            final(self).width == old(self).width,
            final(self).height == old(self).height,
            final(self).at(y as int, x as int) == Some((glyph, color)),
            forall|yy: int, xx: int|
                0 <= yy < old(self).height && 0 <= xx < old(self).width && !(yy == y as int && xx
                    == x as int) ==> final(self).at(yy, xx) == old(self).at(yy, xx),
    {
        proof {
            lemma_dims_product_bound(self.width as int, self.height as int);
            lemma_row_major_in_range(self.width as int, self.height as int, y as int, x as int);
        }
        let idx: usize = (y as usize) * (self.width as usize) + (x as usize);
        self.cells[idx] = Some((glyph, color));
        proof {
            assert forall|yy: int, xx: int|
                0 <= yy < old(self).height && 0 <= xx < old(self).width && !(yy == y as int && xx
                    == x as int) implies final(self).at(yy, xx) == old(self).at(yy, xx) by {
                lemma_row_major_in_range(self.width as int, self.height as int, yy, xx);
                lemma_row_major_injective(
                    self.width as int,
                    yy,
                    xx,
                    y as int,
                    x as int,
                );
            }
        }
    }
}

/// Two display dimensions multiply to something far below the machine
/// limit.
proof fn lemma_dims_product_bound(width: int, height: int) by (nonlinear_arith)
    requires
        0 <= width <= 0xffff,
        0 <= height <= 0xffff,
    ensures
        0 <= width * height < 0x1_0000_0000,
{
}

/// A row-major index stays inside a `width * height` cell vector.
proof fn lemma_row_major_in_range(width: int, height: int, y: int, x: int) by (nonlinear_arith)
    requires
        0 <= y < height,
        0 <= x < width,
    ensures
        0 <= y * width + x < width * height,
{
}

/// Distinct positions have distinct row-major indices.
proof fn lemma_row_major_injective(width: int, y1: int, x1: int, y2: int, x2: int) by (nonlinear_arith)
    requires
        0 <= x1 < width,
        0 <= x2 < width,
        0 <= y1,
        0 <= y2,
        !(y1 == y2 && x1 == x2),
    ensures
        y1 * width + x1 != y2 * width + x2,
{
}

/// Whether the active piece, if any, covers grid cell `(gy, gx)`.
pub open spec fn active_covers(board: GameBoard, gy: int, gx: int) -> bool {
    board.active_piece matches Some(ap) && piece_covers(ap.pos, ap.tetromino, gy, gx)
}

/// The symbol the static grid alone asks for at character cell `(cy, cx)`
/// of the board region: the glyph pattern in the cell's color where the
/// underlying grid cell is occupied, nothing where it is empty.
pub open spec fn grid_symbol(board: GameBoard, cy: int, cx: int) -> Option<(char, Colors)> {
    match board.cell(cy / TILE_HEIGHT as int, cx / TILE_WIDTH as int) {
        Some(color) => Some(
            (tile_char(cy % TILE_HEIGHT as int, cx % TILE_WIDTH as int), color),
        ),
        None => None,
    }
}

/// The symbol the full mapping paints at character cell `(cy, cx)` of the
/// board region: the active piece wins visually over the static grid, an
/// occupied grid cell shows its own color, and an empty cell under no
/// active piece produces no symbol at all.
pub open spec fn frame_symbol(board: GameBoard, cy: int, cx: int) -> Option<(char, Colors)> {
    if active_covers(board, cy / TILE_HEIGHT as int, cx / TILE_WIDTH as int) {
        Some(
            (
                tile_char(cy % TILE_HEIGHT as int, cx % TILE_WIDTH as int),
                board.active_piece->Some_0.tetromino.color,
            ),
        )
    } else {
        grid_symbol(board, cy, cx)
    }
}

/// Whether display position `(by, bx)` lies in the board's character
/// region when the region's top-left corner sits at `(oy, ox)`.
pub open spec fn in_board_region(board: GameBoard, oy: int, ox: int, by: int, bx: int) -> bool {
    oy <= by < oy + board.grid_dims_chars.y && ox <= bx < ox + board.grid_dims_chars.x
}

/// `(cy, cx)` comes strictly before `(py, px)` in row-major order.
spec fn lex_before(cy: int, cx: int, py: int, px: int) -> bool {
    cy < py || (cy == py && cx < px)
}

/// Partial progress of the grid pass: every character cell of the board
/// region before `(py, px)` in row-major order shows its grid symbol where
/// there is one; everything else still shows `prev`.
spec fn pass1_upto(
    board: GameBoard,
    prev: GlyphBuffer,
    cur: GlyphBuffer,
    oy: int,
    ox: int,
    py: int,
    px: int,
) -> bool {
    &&& cur.width == prev.width
    &&& cur.height == prev.height
    &&& cur.wf()
    &&& forall|by: int, bx: int|
        0 <= by < cur.height && 0 <= bx < cur.width ==> #[trigger] cur.at(by, bx) == (
        if in_board_region(board, oy, ox, by, bx) && lex_before(by - oy, bx - ox, py, px)
            && grid_symbol(board, by - oy, bx - ox) is Some {
            grid_symbol(board, by - oy, bx - ox)
        } else {
            prev.at(by, bx)
        })
}

/// Whether one of the first `n` offsets of the piece lands on grid cell
/// `(gy, gx)`.
spec fn active_prefix_covers(pos: Vec2<usize>, t: Tetromino, n: int, gy: int, gx: int) -> bool {
    exists|k: int| 0 <= k < n && gy == pos.y + t.blocks@[k].0 && gx == pos.x + t.blocks@[k].1
}

/// Partial progress of the overlay pass: every character cell over the
/// first `n` piece offsets shows the piece's glyph pattern; everything
/// else still shows `base`, the outcome of the grid pass.
spec fn pass2_upto(
    board: GameBoard,
    pos: Vec2<usize>,
    t: Tetromino,
    base: GlyphBuffer,
    cur: GlyphBuffer,
    oy: int,
    ox: int,
    n: int,
) -> bool {
    &&& cur.width == base.width
    &&& cur.height == base.height
    &&& cur.wf()
    &&& forall|by: int, bx: int|
        0 <= by < cur.height && 0 <= bx < cur.width ==> #[trigger] cur.at(by, bx) == (
        if in_board_region(board, oy, ox, by, bx) && active_prefix_covers(
            pos,
            t,
            n,
            (by - oy) / TILE_HEIGHT as int,
            (bx - ox) / TILE_WIDTH as int,
        ) {
            Some(
                (tile_char((by - oy) % TILE_HEIGHT as int, (bx - ox) % TILE_WIDTH as int), t.color),
            )
        } else {
            base.at(by, bx)
        })
}

impl GameBoard {
    /// Maps the board state into the display: every occupied grid cell and
    /// every cell of the active piece paints the fixed glyph pattern in its
    /// color inside the board region at `area`'s top-left corner, the
    /// active piece painted after (and so over) the static grid; every
    /// other position of the display keeps what it held.
    pub fn render(&self, area: Rect, buf: &mut GlyphBuffer)
        requires
            self.wf(),
            old(buf).wf(),
            area.y + self.grid_dims_chars.y <= old(buf).height,
            area.x + self.grid_dims_chars.x <= old(buf).width,
            self.active_piece matches Some(ap) ==> piece_in_bounds(
                ap.pos,
                ap.tetromino,
                self.height(),
                self.width(),
            ),
        ensures
            final(buf).wf(),
            final(buf).width == old(buf).width,
            final(buf).height == old(buf).height,
            forall|by: int, bx: int|
                0 <= by < old(buf).height && 0 <= bx < old(buf).width
                    ==> #[trigger] final(buf).at(by, bx) == (if in_board_region(
                    *self,
                    area.y as int,
                    area.x as int,
                    by,
                    bx,
                ) && frame_symbol(*self, by - area.y, bx - area.x) is Some {
                    frame_symbol(*self, by - area.y, bx - area.x)
                } else {
                    old(buf).at(by, bx)
                }),
    {
        let oy = area.y;
        let ox = area.x;
        let dims_y = self.grid_dims_chars.y;
        let dims_x = self.grid_dims_chars.x;
        let mut cy: usize = 0;
        while cy < dims_y
            invariant
                self.wf(),
                cy <= dims_y,
                dims_y == self.grid_dims_chars.y,
                dims_x == self.grid_dims_chars.x,
                oy + dims_y <= old(buf).height,
                ox + dims_x <= old(buf).width,
                pass1_upto(*self, *old(buf), *buf, oy as int, ox as int, cy as int, 0),
            decreases dims_y - cy,
        {
            let mut cx: usize = 0;
            while cx < dims_x
                invariant
                    self.wf(),
                    cy < dims_y,
                    cx <= dims_x,
                    dims_y == self.grid_dims_chars.y,
                    dims_x == self.grid_dims_chars.x,
                    oy + dims_y <= old(buf).height,
                    ox + dims_x <= old(buf).width,
                    pass1_upto(*self, *old(buf), *buf, oy as int, ox as int, cy as int, cx as int),
                decreases dims_x - cx,
            {
                let ghost prev = *buf;
                let gy = cy / TILE_HEIGHT;
                let gx = cx / TILE_WIDTH;
                match self.grid[gy][gx] {
                    Some(color) => {
                        let glyph = tile_char_at(cy % TILE_HEIGHT, cx % TILE_WIDTH);
                        buf.put((oy as usize + cy) as u16, (ox as usize + cx) as u16, glyph, color);
                    },
                    None => {},
                }
                proof {
                    assert forall|by: int, bx: int|
                        0 <= by < buf.height && 0 <= bx < buf.width implies #[trigger] buf.at(
                        by,
                        bx,
                    ) == (if in_board_region(*self, oy as int, ox as int, by, bx) && lex_before(
                        by - oy,
                        bx - ox,
                        cy as int,
                        cx + 1,
                    ) && grid_symbol(*self, by - oy, bx - ox) is Some {
                        grid_symbol(*self, by - oy, bx - ox)
                    } else {
                        old(buf).at(by, bx)
                    }) by {
                        if by == oy + cy && bx == ox + cx {
                        } else {
                            assert(buf.at(by, bx) == prev.at(by, bx));
                        }
                    }
                }
                cx = cx + 1;
            }
            cy = cy + 1;
        }
        if let Some(ap) = self.active_piece {
            let ghost base = *buf;
            let color = ap.tetromino.color;
            let mut i: usize = 0;
            while i < 4
                invariant
                    self.wf(),
                    self.active_piece == Some(ap),
                    ap.tetromino.blocks@.len() == 4,
                    piece_in_bounds(ap.pos, ap.tetromino, self.height(), self.width()),
                    i <= 4,
                    color == ap.tetromino.color,
                    dims_y == self.grid_dims_chars.y,
                    dims_x == self.grid_dims_chars.x,
                    oy + dims_y <= base.height,
                    ox + dims_x <= base.width,
                    pass2_upto(
                        *self,
                        ap.pos,
                        ap.tetromino,
                        base,
                        *buf,
                        oy as int,
                        ox as int,
                        i as int,
                    ),
                decreases 4 - i,
            {
                let (block_y, block_x) = ap.tetromino.blocks[i];
                let gy = block_y + ap.pos.y;
                let gx = block_x + ap.pos.x;
                let mut ty: usize = 0;
                while ty < TILE_HEIGHT
                    invariant
                        self.wf(),
                        self.active_piece == Some(ap),
                        ap.tetromino.blocks@.len() == 4,
                        piece_in_bounds(ap.pos, ap.tetromino, self.height(), self.width()),
                        i < 4,
                        ty <= TILE_HEIGHT,
                        color == ap.tetromino.color,
                        gy == ap.pos.y + ap.tetromino.blocks@[i as int].0,
                        gx == ap.pos.x + ap.tetromino.blocks@[i as int].1,
                        dims_y == self.grid_dims_chars.y,
                        dims_x == self.grid_dims_chars.x,
                        oy + dims_y <= base.height,
                        ox + dims_x <= base.width,
                        buf.width == base.width,
                        buf.height == base.height,
                        buf.wf(),
                        forall|by: int, bx: int|
                            0 <= by < buf.height && 0 <= bx < buf.width ==> #[trigger] buf.at(
                                by,
                                bx,
                            ) == (if in_board_region(*self, oy as int, ox as int, by, bx) && (
                            active_prefix_covers(
                                ap.pos,
                                ap.tetromino,
                                i as int,
                                (by - oy) / TILE_HEIGHT as int,
                                (bx - ox) / TILE_WIDTH as int,
                            ) || ((by - oy) / TILE_HEIGHT as int == gy && (bx - ox)
                                / TILE_WIDTH as int == gx && ((by - oy) % TILE_HEIGHT as int)
                                < ty)) {
                                Some(
                                    (
                                        tile_char(
                                            (by - oy) % TILE_HEIGHT as int,
                                            (bx - ox) % TILE_WIDTH as int,
                                        ),
                                        color,
                                    ),
                                )
                            } else {
                                base.at(by, bx)
                            }),
                    decreases TILE_HEIGHT - ty,
                {
                    let mut tx: usize = 0;
                    while tx < TILE_WIDTH
                        invariant
                            self.wf(),
                            self.active_piece == Some(ap),
                            ap.tetromino.blocks@.len() == 4,
                            piece_in_bounds(ap.pos, ap.tetromino, self.height(), self.width()),
                            i < 4,
                            ty < TILE_HEIGHT,
                            tx <= TILE_WIDTH,
                            color == ap.tetromino.color,
                            gy == ap.pos.y + ap.tetromino.blocks@[i as int].0,
                            gx == ap.pos.x + ap.tetromino.blocks@[i as int].1,
                            dims_y == self.grid_dims_chars.y,
                            dims_x == self.grid_dims_chars.x,
                            oy + dims_y <= base.height,
                            ox + dims_x <= base.width,
                            buf.width == base.width,
                            buf.height == base.height,
                            buf.wf(),
                            forall|by: int, bx: int|
                                0 <= by < buf.height && 0 <= bx < buf.width ==> #[trigger] buf.at(
                                    by,
                                    bx,
                                ) == (if in_board_region(*self, oy as int, ox as int, by, bx) && (
                                active_prefix_covers(
                                    ap.pos,
                                    ap.tetromino,
                                    i as int,
                                    (by - oy) / TILE_HEIGHT as int,
                                    (bx - ox) / TILE_WIDTH as int,
                                ) || ((by - oy) / TILE_HEIGHT as int == gy && (bx - ox)
                                    / TILE_WIDTH as int == gx && (((by - oy) % TILE_HEIGHT as int)
                                    < ty || ((by - oy) % TILE_HEIGHT as int == ty && ((bx - ox)
                                    % TILE_WIDTH as int) < tx)))) {
                                    Some(
                                        (
                                            tile_char(
                                                (by - oy) % TILE_HEIGHT as int,
                                                (bx - ox) % TILE_WIDTH as int,
                                            ),
                                            color,
                                        ),
                                    )
                                } else {
                                    base.at(by, bx)
                                }),
                        decreases TILE_WIDTH - tx,
                    {
                        let ghost prev = *buf;
                        let glyph = tile_char_at(ty, tx);
                        let char_y: usize = gy * TILE_HEIGHT + ty;
                        let char_x: usize = gx * TILE_WIDTH + tx;
                        proof {
                            lemma_tile_block_bounds(
                                gy as int,
                                gx as int,
                                ty as int,
                                tx as int,
                                self.height(),
                                self.width(),
                            );
                        }
                        buf.put(
                            (oy as usize + char_y) as u16,
                            (ox as usize + char_x) as u16,
                            glyph,
                            color,
                        );
                        proof {
                            lemma_tile_coords(gy as int, gx as int, ty as int, tx as int);
                            assert forall|by: int, bx: int|
                                0 <= by < buf.height && 0 <= bx < buf.width implies #[trigger] buf.at(
                                    by,
                                    bx,
                                ) == (if in_board_region(*self, oy as int, ox as int, by, bx) && (
                                active_prefix_covers(
                                    ap.pos,
                                    ap.tetromino,
                                    i as int,
                                    (by - oy) / TILE_HEIGHT as int,
                                    (bx - ox) / TILE_WIDTH as int,
                                ) || ((by - oy) / TILE_HEIGHT as int == gy && (bx - ox)
                                    / TILE_WIDTH as int == gx && (((by - oy) % TILE_HEIGHT as int)
                                    < ty || ((by - oy) % TILE_HEIGHT as int == ty && ((bx - ox)
                                    % TILE_WIDTH as int) < tx + 1)))) {
                                    Some(
                                        (
                                            tile_char(
                                                (by - oy) % TILE_HEIGHT as int,
                                                (bx - ox) % TILE_WIDTH as int,
                                            ),
                                            color,
                                        ),
                                    )
                                } else {
                                    base.at(by, bx)
                                }) by {
                                if by == oy + char_y && bx == ox + char_x {
                                } else {
                                    assert(buf.at(by, bx) == prev.at(by, bx));
                                }
                            }
                        }
                        tx = tx + 1;
                    }
                    ty = ty + 1;
                }
                proof {
                    assert forall|by: int, bx: int|
                        0 <= by < buf.height && 0 <= bx < buf.width implies #[trigger] buf.at(
                            by,
                            bx,
                        ) == (if in_board_region(*self, oy as int, ox as int, by, bx)
                            && active_prefix_covers(
                            ap.pos,
                            ap.tetromino,
                            i + 1,
                            (by - oy) / TILE_HEIGHT as int,
                            (bx - ox) / TILE_WIDTH as int,
                        ) {
                            Some(
                                (
                                    tile_char(
                                        (by - oy) % TILE_HEIGHT as int,
                                        (bx - ox) % TILE_WIDTH as int,
                                    ),
                                    color,
                                ),
                            )
                        } else {
                            base.at(by, bx)
                        }) by {
                        let cgy = (by - oy) / TILE_HEIGHT as int;
                        let cgx = (bx - ox) / TILE_WIDTH as int;
                        if in_board_region(*self, oy as int, ox as int, by, bx) {
                            if active_prefix_covers(ap.pos, ap.tetromino, i + 1, cgy, cgx) {
                                if !active_prefix_covers(ap.pos, ap.tetromino, i as int, cgy, cgx) {
                                    let k = choose|k: int|
                                        0 <= k < i + 1 && cgy == ap.pos.y + ap.tetromino.blocks@[k].0
                                            && cgx == ap.pos.x + ap.tetromino.blocks@[k].1;
                                    assert(k == i);
                                    assert(((by - oy) % TILE_HEIGHT as int) < TILE_HEIGHT as int);
                                }
                            }
                        }
                    }
                }
                i = i + 1;
            }
            proof {
                assert forall|by: int, bx: int|
                    0 <= by < buf.height && 0 <= bx < buf.width implies #[trigger] buf.at(by, bx)
                    == (if in_board_region(*self, area.y as int, area.x as int, by, bx)
                        && frame_symbol(*self, by - area.y, bx - area.x) is Some {
                        frame_symbol(*self, by - area.y, bx - area.x)
                    } else {
                        old(buf).at(by, bx)
                    }) by {
                    if in_board_region(*self, oy as int, ox as int, by, bx) {
                        assert(active_covers(*self, (by - oy) / TILE_HEIGHT as int, (bx - ox)
                            / TILE_WIDTH as int) == active_prefix_covers(
                            ap.pos,
                            ap.tetromino,
                            4,
                            (by - oy) / TILE_HEIGHT as int,
                            (bx - ox) / TILE_WIDTH as int,
                        ));
                        assert(base.at(by, bx) == (if in_board_region(
                            *self,
                            oy as int,
                            ox as int,
                            by,
                            bx,
                        ) && lex_before(by - oy, bx - ox, dims_y as int, 0) && grid_symbol(
                            *self,
                            by - oy,
                            bx - ox,
                        ) is Some {
                            grid_symbol(*self, by - oy, bx - ox)
                        } else {
                            old(buf).at(by, bx)
                        }));
                    }
                }
            }
        } else {
            proof {
                assert forall|by: int, bx: int|
                    0 <= by < buf.height && 0 <= bx < buf.width implies #[trigger] buf.at(by, bx)
                    == (if in_board_region(*self, area.y as int, area.x as int, by, bx)
                        && frame_symbol(*self, by - area.y, bx - area.x) is Some {
                        frame_symbol(*self, by - area.y, bx - area.x)
                    } else {
                        old(buf).at(by, bx)
                    }) by {
                }
            }
        }
    }
}

/// The glyph pattern's character at `(tile_y, tile_x)`.
fn tile_char_at(tile_y: usize, tile_x: usize) -> (c: char)
    requires
        tile_y < TILE_HEIGHT,
        tile_x < TILE_WIDTH,
    ensures
        c == tile_char(tile_y as int, tile_x as int),
{
    if tile_y == 0 {
        if tile_x == 0 {
            '\u{250c}'
        } else if tile_x == 1 {
            '\u{2500}'
        } else {
            '\u{2510}'
        }
    } else {
        if tile_x == 0 {
            '\u{2514}'
        } else if tile_x == 1 {
            '\u{2500}'
        } else {
            '\u{2518}'
        }
    }
}

/// A character of a tile block over an in-bounds grid cell stays inside
/// the board's character dimensions.
proof fn lemma_tile_block_bounds(gy: int, gx: int, ty: int, tx: int, height: int, width: int) by (nonlinear_arith)
    requires
        0 <= gy < height,
        0 <= gx < width,
        0 <= ty < TILE_HEIGHT,
        0 <= tx < TILE_WIDTH,
    ensures
        0 <= gy * TILE_HEIGHT as int + ty < TILE_HEIGHT as int * height,
        0 <= gx * TILE_WIDTH as int + tx < TILE_WIDTH as int * width,
{
}

/// Character coordinates inside a tile block decompose back into the block
/// and the position within it.
proof fn lemma_tile_coords(gy: int, gx: int, ty: int, tx: int) by (nonlinear_arith)
    requires
        0 <= gy,
        0 <= gx,
        0 <= ty < TILE_HEIGHT,
        0 <= tx < TILE_WIDTH,
    ensures
        (gy * TILE_HEIGHT as int + ty) / TILE_HEIGHT as int == gy,
        (gx * TILE_WIDTH as int + tx) / TILE_WIDTH as int == gx,
        (gy * TILE_HEIGHT as int + ty) % TILE_HEIGHT as int == ty,
        (gx * TILE_WIDTH as int + tx) % TILE_WIDTH as int == tx,
{
}

} // verus!
