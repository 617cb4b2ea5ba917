use vstd::prelude::*;

use crate::tetromino::Colors;
use crate::tetromino::Tetromino;
use crate::utils::Vec2;

verus! {

/// Width in display characters of the glyph pattern drawn for one grid cell.
pub const TILE_WIDTH: usize = 3;

/// Height in display characters of the glyph pattern drawn for one grid cell.
pub const TILE_HEIGHT: usize = 2;

/// The single piece the player controls, overlaid on the static grid:
/// a grid position for its anchor plus the piece instance.
#[derive(Debug, Clone, Copy)]
pub struct ActivePiece {
    pub pos: Vec2<usize>,
    pub tetromino: Tetromino,
}

/// A fixed-size grid of optional cell colors plus at most one active piece.
/// The grid's dimensions are set at construction and never change; the
/// character dimensions are the cell dimensions scaled by the glyph pattern.
#[derive(Debug, Clone)]
pub struct GameBoard {
    pub grid: Vec<Vec<Option<Colors>>>,
    pub grid_dims_chars: Vec2<usize>,
    pub active_piece: Option<ActivePiece>,
}

/// The four absolute cells of a piece anchored at `pos` cover grid cell
/// `(y, x)` exactly when some offset lands there.
pub open spec fn piece_covers(pos: Vec2<usize>, t: Tetromino, y: int, x: int) -> bool {
    exists|i: int|
        0 <= i < t.blocks@.len() && y == pos.y + t.blocks@[i].0 && x == pos.x + t.blocks@[i].1
}

/// As `piece_covers`, but looking only at the first `n` offsets.
spec fn prefix_covers(pos: Vec2<usize>, t: Tetromino, n: int, y: int, x: int) -> bool {
    exists|i: int| 0 <= i < n && y == pos.y + t.blocks@[i].0 && x == pos.x + t.blocks@[i].1
}

/// All four absolute cells of a piece anchored at `pos` lie inside a grid of
/// the given dimensions.
pub open spec fn piece_in_bounds(pos: Vec2<usize>, t: Tetromino, height: int, width: int) -> bool {
    forall|i: int|
        0 <= i < t.blocks@.len() ==> (#[trigger] t.blocks@[i]).0 + pos.y < height && t.blocks@[i].1
            + pos.x < width
}

/// The effect of committing a piece: `after` is `before` with the piece's
/// cells written in the piece's color, every other cell, the dimensions and
/// the active piece unchanged.
pub open spec fn commit_writes(
    before: GameBoard,
    after: GameBoard,
    pos: Vec2<usize>,
    t: Tetromino,
) -> bool {
    &&& after.wf()
    &&& after.height() == before.height()
    &&& after.width() == before.width()
    &&& after.active_piece == before.active_piece
    &&& forall|y: int, x: int|
        0 <= y < before.height() && 0 <= x < before.width() ==> after.cell(y, x) == (if piece_covers(
            pos,
            t,
            y,
            x,
        ) {
            Some(t.color)
        } else {
            before.cell(y, x)
        })
}

impl GameBoard {
    /// Number of grid rows.
    pub open spec fn height(self) -> int {
        self.grid_dims_chars.y as int / TILE_HEIGHT as int
    }

    /// Number of grid columns.
    pub open spec fn width(self) -> int {
        self.grid_dims_chars.x as int / TILE_WIDTH as int
    }

    /// The color of grid cell `(y, x)`, or `None` where it is empty.
    pub open spec fn cell(self, y: int, x: int) -> Option<Colors> {
        self.grid@[y]@[x]
    }

    /// The grid is a full `height x width` rectangle and the character
    /// dimensions are the cell dimensions scaled by the glyph pattern.
    pub open spec fn wf(self) -> bool {
        &&& self.grid@.len() == self.height()
        &&& forall|y: int|
            0 <= y < self.grid@.len() ==> (#[trigger] self.grid@[y])@.len() == self.width()
        &&& self.grid_dims_chars.x == TILE_WIDTH * self.width()
        &&& self.grid_dims_chars.y == TILE_HEIGHT * self.height()
    }

    /// An all-empty grid of the given fixed dimensions with no active piece.
    pub fn new(height: usize, width: usize) -> (r: GameBoard)
        requires
            TILE_WIDTH * width <= usize::MAX,
            TILE_HEIGHT * height <= usize::MAX,
        ensures
            r.wf(),
            r.height() == height,
            r.width() == width,
            forall|y: int, x: int| 0 <= y < height && 0 <= x < width ==> r.cell(y, x) is None,
            r.active_piece is None,
    {
        let mut grid: Vec<Vec<Option<Colors>>> = Vec::new();
        let mut y: usize = 0;
        while y < height
            invariant
                y <= height,
                grid@.len() == y,
                forall|i: int| 0 <= i < y ==> (#[trigger] grid@[i])@.len() == width,
                forall|i: int, j: int| 0 <= i < y && 0 <= j < width ==> grid@[i]@[j] is None,
            decreases height - y,
        {
            let mut row: Vec<Option<Colors>> = Vec::new();
            let mut x: usize = 0;
            while x < width
                invariant
                    x <= width,
                    row@.len() == x,
                    forall|j: int| 0 <= j < x ==> row@[j] is None,
                decreases width - x,
            {
                row.push(None);
                x = x + 1;
            }
            grid.push(row);
            y = y + 1;
        }
        GameBoard {
            grid,
            grid_dims_chars: Vec2::new(TILE_WIDTH * width, TILE_HEIGHT * height),
            active_piece: None,
        }
    }

    /// Writes the piece's four absolute cells permanently into the grid in
    /// the piece's color, overwriting whatever was there; every other cell
    /// and the active piece are untouched. The caller answers for the cells
    /// lying inside the grid.
    pub fn draw_to_board(&mut self, pos: Vec2<usize>, tetromino: Tetromino)
        requires
            old(self).wf(),
            piece_in_bounds(pos, tetromino, old(self).height(), old(self).width()),
        ensures
            commit_writes(*old(self), *final(self), pos, tetromino),
    {
        let mut i: usize = 0;
        while i < 4
            invariant
                i <= 4,
                tetromino.blocks@.len() == 4,
                self.wf(),
                self.height() == old(self).height(),
                self.width() == old(self).width(),
                self.grid_dims_chars == old(self).grid_dims_chars,
                self.active_piece == old(self).active_piece,
                piece_in_bounds(pos, tetromino, old(self).height(), old(self).width()),
                forall|y: int, x: int|
                    0 <= y < old(self).height() && 0 <= x < old(self).width() ==> self.cell(y, x)
                        == (if prefix_covers(pos, tetromino, i as int, y, x) {
                        Some(tetromino.color)
                    } else {
                        old(self).cell(y, x)
                    }),
            decreases 4 - i,
        {
            let ghost prev = *self;
            let (block_y, block_x) = tetromino.blocks[i];
            let grid_y = block_y + pos.y;
            let grid_x = block_x + pos.x;
            self.grid[grid_y][grid_x] = Some(tetromino.color);
            proof {
                assert forall|y: int, x: int|
                    0 <= y < old(self).height() && 0 <= x < old(self).width() implies self.cell(
                    y,
                    x,
                ) == (if prefix_covers(pos, tetromino, i + 1, y, x) {
                    Some(tetromino.color)
                } else {
                    old(self).cell(y, x)
                }) by {
                    if y == grid_y && x == grid_x {
                        assert(y == pos.y + tetromino.blocks@[i as int].0 && x == pos.x
                            + tetromino.blocks@[i as int].1);
                        assert(prefix_covers(pos, tetromino, i + 1, y, x));
                    } else {
                        assert(self.cell(y, x) == prev.cell(y, x));
                        if prefix_covers(pos, tetromino, i + 1, y, x) {
                            let k = choose|k: int|
                                0 <= k < i + 1 && y == pos.y + tetromino.blocks@[k].0 && x == pos.x
                                    + tetromino.blocks@[k].1;
                            assert(k < i);
                            assert(prefix_covers(pos, tetromino, i as int, y, x));
                        } else {
                            assert(!prefix_covers(pos, tetromino, i as int, y, x));
                        }
                    }
                }
            }
            i = i + 1;
        }
        proof {
            assert forall|y: int, x: int|
                0 <= y < old(self).height() && 0 <= x < old(self).width() implies self.cell(y, x)
                == (if piece_covers(pos, tetromino, y, x) {
                Some(tetromino.color)
            } else {
                old(self).cell(y, x)
            }) by {
                assert(piece_covers(pos, tetromino, y, x) == prefix_covers(
                    pos,
                    tetromino,
                    4,
                    y,
                    x,
                ));
            }
        }
    }
}

/// Two commits in a row compose deterministically: on every cell the later
/// write wins, a cell only the first piece covers keeps the first piece's
/// color, and a cell neither covers keeps its original value.
pub proof fn lemma_commit_then_commit(
    b0: GameBoard,
    b1: GameBoard,
    b2: GameBoard,
    p1: Vec2<usize>,
    t1: Tetromino,
    p2: Vec2<usize>,
    t2: Tetromino,
)
    requires
        commit_writes(b0, b1, p1, t1),
        commit_writes(b1, b2, p2, t2),
    ensures
        forall|y: int, x: int|
            0 <= y < b0.height() && 0 <= x < b0.width() ==> b2.cell(y, x) == (if piece_covers(
                p2,
                t2,
                y,
                x,
            ) {
                Some(t2.color)
            } else if piece_covers(p1, t1, y, x) {
                Some(t1.color)
            } else {
                b0.cell(y, x)
            }),
{
}

/// Committing two pieces with disjoint cell sets leaves both fully
/// represented: every in-bounds cell of either piece afterwards holds that
/// piece's color, whichever of the two was committed first.
pub proof fn lemma_commit_disjoint_both_kept(
    b0: GameBoard,
    b1: GameBoard,
    b2: GameBoard,
    p1: Vec2<usize>,
    t1: Tetromino,
    p2: Vec2<usize>,
    t2: Tetromino,
)
    requires
        commit_writes(b0, b1, p1, t1),
        commit_writes(b1, b2, p2, t2),
        forall|y: int, x: int| !(piece_covers(p1, t1, y, x) && piece_covers(p2, t2, y, x)),
    ensures
        forall|y: int, x: int|
            0 <= y < b0.height() && 0 <= x < b0.width() && piece_covers(p1, t1, y, x) ==> b2.cell(
                y,
                x,
            ) == Some(t1.color),
        forall|y: int, x: int|
            0 <= y < b0.height() && 0 <= x < b0.width() && piece_covers(p2, t2, y, x) ==> b2.cell(
                y,
                x,
            ) == Some(t2.color),
{
    lemma_commit_then_commit(b0, b1, b2, p1, t1, p2, t2);
}

} // verus!
