use vstd::prelude::*;

verus! {

/// The fixed palette: one color per shape, invariant under rotation.
#[derive(Debug, Clone, Copy, PartialEq, Eq, Structural)]
pub enum Colors {
    Purple,
    Orange,
    Pink,
    Red,
    Green,
    Blue,
    Yellow,
}

/// The actions a piece can be asked to make: three translations, two
/// rotations, and a drop that the game does not carry out yet.
#[derive(Debug, Clone, Copy, PartialEq, Eq, Structural)]
pub enum MoveDirection {
    Down,
    Left,
    Right,
    CCW,
    CW,
    FirmDrop,
}

/// The four orientations of a piece, cycling under rotation.
#[derive(Debug, Clone, Copy, PartialEq, Eq, Structural)]
pub enum TetrominoRotation {
    Zero,
    Ninety,
    OneEighty,
    TwoSeventy,
}

/// The seven piece geometries.
#[derive(Debug, Clone, Copy, PartialEq, Eq, Structural)]
pub enum TetrominoShape {
    T,
    L,
    J,
    S,
    Z,
    I,
    O,
}

/// The color the catalog assigns to a shape; rotation plays no part.
pub open spec fn color_of(shape: TetrominoShape) -> Colors {
    match shape {
        TetrominoShape::T => Colors::Purple,
        TetrominoShape::L => Colors::Orange,
        TetrominoShape::J => Colors::Pink,
        TetrominoShape::S => Colors::Green,
        TetrominoShape::Z => Colors::Red,
        TetrominoShape::I => Colors::Blue,
        TetrominoShape::O => Colors::Yellow,
    }
}

/// The catalog's four (row, column) cell offsets for each (shape, rotation)
/// pair. Pure data: every pair has its own literal table, no rotation
/// transform is computed. The offsets are relative to the piece's anchor.
pub open spec fn blocks_of(shape: TetrominoShape, rotation: TetrominoRotation) -> Seq<(
    usize,
    usize,
)> {
    match (shape, rotation) {
        (TetrominoShape::T, TetrominoRotation::Zero) => seq![(1, 0), (1, 1), (1, 2), (0, 1)],
        (TetrominoShape::T, TetrominoRotation::Ninety) => seq![(0, 1), (1, 1), (2, 1), (1, 2)],
        (TetrominoShape::T, TetrominoRotation::OneEighty) => seq![(1, 0), (1, 1), (1, 2), (2, 1)],
        (TetrominoShape::T, TetrominoRotation::TwoSeventy) => seq![(0, 1), (1, 1), (2, 1), (1, 0)],
        (TetrominoShape::L, TetrominoRotation::Zero) => seq![(1, 0), (1, 1), (1, 2), (0, 2)],
        (TetrominoShape::L, TetrominoRotation::Ninety) => seq![(0, 1), (1, 1), (2, 1), (2, 0)],
        (TetrominoShape::L, TetrominoRotation::OneEighty) => seq![(1, 0), (1, 1), (1, 2), (2, 0)],
        (TetrominoShape::L, TetrominoRotation::TwoSeventy) => seq![(0, 0), (1, 0), (2, 0), (0, 1)],
        (TetrominoShape::J, TetrominoRotation::Zero) => seq![(1, 0), (1, 1), (1, 2), (0, 0)],
        (TetrominoShape::J, TetrominoRotation::Ninety) => seq![(0, 1), (1, 1), (2, 1), (2, 2)],
        (TetrominoShape::J, TetrominoRotation::OneEighty) => seq![(1, 0), (1, 1), (1, 2), (2, 2)],
        (TetrominoShape::J, TetrominoRotation::TwoSeventy) => seq![(0, 2), (0, 1), (1, 1), (2, 1)],
        (TetrominoShape::S, TetrominoRotation::Zero) => seq![(1, 0), (1, 1), (0, 1), (0, 2)],
        (TetrominoShape::S, TetrominoRotation::Ninety) => seq![(0, 1), (1, 1), (1, 2), (2, 2)],
        (TetrominoShape::S, TetrominoRotation::OneEighty) => seq![(2, 0), (2, 1), (1, 1), (1, 2)],
        (TetrominoShape::S, TetrominoRotation::TwoSeventy) => seq![(0, 0), (1, 0), (1, 1), (2, 1)],
        (TetrominoShape::Z, TetrominoRotation::Zero) => seq![(0, 0), (0, 1), (1, 1), (1, 2)],
        (TetrominoShape::Z, TetrominoRotation::Ninety) => seq![(0, 1), (1, 1), (1, 2), (2, 1)],
        (TetrominoShape::Z, TetrominoRotation::OneEighty) => seq![(1, 0), (1, 1), (1, 1), (1, 2)],
        (TetrominoShape::Z, TetrominoRotation::TwoSeventy) => seq![(0, 0), (1, 0), (1, 1), (2, 1)],
        (TetrominoShape::I, TetrominoRotation::Zero) => seq![(1, 0), (1, 1), (1, 2), (1, 3)],
        (TetrominoShape::I, TetrominoRotation::Ninety) => seq![(0, 2), (1, 2), (2, 2), (3, 2)],
        (TetrominoShape::I, TetrominoRotation::OneEighty) => seq![(2, 0), (2, 1), (2, 2), (2, 3)],
        (TetrominoShape::I, TetrominoRotation::TwoSeventy) => seq![(0, 1), (1, 1), (2, 1), (3, 1)],
        (TetrominoShape::O, _) => seq![(0, 0), (0, 1), (1, 0), (1, 1)],
    }
}

/// One rotation step clockwise.
pub open spec fn rot_cw(r: TetrominoRotation) -> TetrominoRotation {
    match r {
        TetrominoRotation::Zero => TetrominoRotation::Ninety,
        TetrominoRotation::Ninety => TetrominoRotation::OneEighty,
        TetrominoRotation::OneEighty => TetrominoRotation::TwoSeventy,
        TetrominoRotation::TwoSeventy => TetrominoRotation::Zero,
    }
}

/// One rotation step counter-clockwise.
pub open spec fn rot_ccw(r: TetrominoRotation) -> TetrominoRotation {
    match r {
        TetrominoRotation::Zero => TetrominoRotation::TwoSeventy,
        TetrominoRotation::Ninety => TetrominoRotation::Zero,
        TetrominoRotation::OneEighty => TetrominoRotation::Ninety,
        TetrominoRotation::TwoSeventy => TetrominoRotation::OneEighty,
    }
}

/// The order in which the random picker lists the seven shapes.
pub open spec fn shape_order() -> Seq<TetrominoShape> {
    seq![
        TetrominoShape::O,
        TetrominoShape::I,
        TetrominoShape::T,
        TetrominoShape::S,
        TetrominoShape::Z,
        TetrominoShape::J,
        TetrominoShape::L,
    ]
}

/// Relies on rand's `Rng::gen_range` over `0..n`, fed by `rand::thread_rng`:
/// the sample lies in the range, which the precondition keeps non-empty (an
/// empty range panics). Entropy comes from the process-wide thread-local
/// generator, so nothing more than the bound holds of the outcome.
#[verifier::external_body]
fn random_index(n: usize) -> (r: usize)
    requires
        n > 0,
    ensures
        r < n,
{
    rand::Rng::gen_range(&mut rand::thread_rng(), 0..n)
}

impl TetrominoShape {
    /// The shape the random picker's table holds at index `i`.
    pub fn from_index(i: usize) -> (s: TetrominoShape)
        requires
            i < shape_order().len(),
        ensures
            s == shape_order()[i as int],
    {
        match i {
            0 => TetrominoShape::O,
            1 => TetrominoShape::I,
            2 => TetrominoShape::T,
            3 => TetrominoShape::S,
            4 => TetrominoShape::Z,
            5 => TetrominoShape::J,
            _ => TetrominoShape::L,
        }
    }

    /// A uniformly random choice over the seven shapes; consumes entropy
    /// from the process-wide random source, so no two calls need agree.
    pub fn pick_random_shape() -> (s: TetrominoShape)
        ensures
            exists|i: int| 0 <= i < shape_order().len() && s == shape_order()[i],
    {
        let i = random_index(7);
        proof {
            assert(shape_order().len() == 7);
        }
        TetrominoShape::from_index(i)
    }
}

/// A piece instance: four cell offsets, a color, and the (shape, rotation)
/// pair they were looked up from.
#[derive(Debug, Clone, Copy, PartialEq)]
pub struct Tetromino {
    pub blocks: [(usize, usize); 4],
    pub color: Colors,
    pub shape: TetrominoShape,
    pub rotation: TetrominoRotation,
}

/// `t` is exactly the catalog entry for `(shape, rotation)`.
pub open spec fn is_catalog(
    t: Tetromino,
    shape: TetrominoShape,
    rotation: TetrominoRotation,
) -> bool {
    &&& t.shape == shape
    &&& t.rotation == rotation
    &&& t.color == color_of(shape)
    &&& t.blocks@ == blocks_of(shape, rotation)
}

/// One rotate action: `u` is what rotating `t` once in `direction` yields.
/// A rotation re-instantiates from the catalog at the stepped rotation;
/// any non-rotation direction leaves the piece unchanged.
pub open spec fn rotation_step(t: Tetromino, direction: MoveDirection, u: Tetromino) -> bool {
    match direction {
        MoveDirection::CW => is_catalog(u, t.shape, rot_cw(t.rotation)),
        MoveDirection::CCW => is_catalog(u, t.shape, rot_ccw(t.rotation)),
        _ => u == t,
    }
}

impl Tetromino {
    /// The instance agrees with the catalog for its own (shape, rotation).
    pub open spec fn wf(self) -> bool {
        is_catalog(self, self.shape, self.rotation)
    }

    /// Total, pure lookup over the 28 fixed catalog entries.
    pub fn new(shape: TetrominoShape, rotation: TetrominoRotation) -> (r: Tetromino)
        ensures
            is_catalog(r, shape, rotation),
            r.wf(),
    {
        let blocks: [(usize, usize); 4] = match (shape, rotation) {
            (TetrominoShape::T, TetrominoRotation::Zero) => [(1, 0), (1, 1), (1, 2), (0, 1)],
            (TetrominoShape::T, TetrominoRotation::Ninety) => [(0, 1), (1, 1), (2, 1), (1, 2)],
            (TetrominoShape::T, TetrominoRotation::OneEighty) => [(1, 0), (1, 1), (1, 2), (2, 1)],
            (TetrominoShape::T, TetrominoRotation::TwoSeventy) => [(0, 1), (1, 1), (2, 1), (1, 0)],
            (TetrominoShape::L, TetrominoRotation::Zero) => [(1, 0), (1, 1), (1, 2), (0, 2)],
            (TetrominoShape::L, TetrominoRotation::Ninety) => [(0, 1), (1, 1), (2, 1), (2, 0)],
            (TetrominoShape::L, TetrominoRotation::OneEighty) => [(1, 0), (1, 1), (1, 2), (2, 0)],
            (TetrominoShape::L, TetrominoRotation::TwoSeventy) => [(0, 0), (1, 0), (2, 0), (0, 1)],
            (TetrominoShape::J, TetrominoRotation::Zero) => [(1, 0), (1, 1), (1, 2), (0, 0)],
            (TetrominoShape::J, TetrominoRotation::Ninety) => [(0, 1), (1, 1), (2, 1), (2, 2)],
            (TetrominoShape::J, TetrominoRotation::OneEighty) => [(1, 0), (1, 1), (1, 2), (2, 2)],
            (TetrominoShape::J, TetrominoRotation::TwoSeventy) => [(0, 2), (0, 1), (1, 1), (2, 1)],
            (TetrominoShape::S, TetrominoRotation::Zero) => [(1, 0), (1, 1), (0, 1), (0, 2)],
            (TetrominoShape::S, TetrominoRotation::Ninety) => [(0, 1), (1, 1), (1, 2), (2, 2)],
            (TetrominoShape::S, TetrominoRotation::OneEighty) => [(2, 0), (2, 1), (1, 1), (1, 2)],
            (TetrominoShape::S, TetrominoRotation::TwoSeventy) => [(0, 0), (1, 0), (1, 1), (2, 1)],
            (TetrominoShape::Z, TetrominoRotation::Zero) => [(0, 0), (0, 1), (1, 1), (1, 2)],
            (TetrominoShape::Z, TetrominoRotation::Ninety) => [(0, 1), (1, 1), (1, 2), (2, 1)],
            (TetrominoShape::Z, TetrominoRotation::OneEighty) => [(1, 0), (1, 1), (1, 1), (1, 2)],
            (TetrominoShape::Z, TetrominoRotation::TwoSeventy) => [(0, 0), (1, 0), (1, 1), (2, 1)],
            (TetrominoShape::I, TetrominoRotation::Zero) => [(1, 0), (1, 1), (1, 2), (1, 3)],
            (TetrominoShape::I, TetrominoRotation::Ninety) => [(0, 2), (1, 2), (2, 2), (3, 2)],
            (TetrominoShape::I, TetrominoRotation::OneEighty) => [(2, 0), (2, 1), (2, 2), (2, 3)],
            (TetrominoShape::I, TetrominoRotation::TwoSeventy) => [(0, 1), (1, 1), (2, 1), (3, 1)],
            (TetrominoShape::O, _) => [(0, 0), (0, 1), (1, 0), (1, 1)],
        };
        proof {
            assert(blocks@ =~= blocks_of(shape, rotation));
        }
        let color = match shape {
            TetrominoShape::T => Colors::Purple,
            TetrominoShape::L => Colors::Orange,
            TetrominoShape::J => Colors::Pink,
            TetrominoShape::S => Colors::Green,
            TetrominoShape::Z => Colors::Red,
            TetrominoShape::I => Colors::Blue,
            TetrominoShape::O => Colors::Yellow,
        };
        Tetromino { blocks, color, shape, rotation }
    }

    /// Advances (CW) or retreats (CCW) the rotation by one step and looks the
    /// new instance up from the catalog; any other direction is the identity.
    /// No position adjustment or wall kick takes place.
    pub fn rotate(self, direction: MoveDirection) -> (r: Tetromino)
        ensures
            rotation_step(self, direction, r),
            self.wf() ==> r.wf(),
    {
        match direction {
            MoveDirection::CW => {
                let next = match self.rotation {
                    TetrominoRotation::Zero => TetrominoRotation::Ninety,
                    TetrominoRotation::Ninety => TetrominoRotation::OneEighty,
                    TetrominoRotation::OneEighty => TetrominoRotation::TwoSeventy,
                    TetrominoRotation::TwoSeventy => TetrominoRotation::Zero,
                };
                Tetromino::new(self.shape, next)
            },
            MoveDirection::CCW => {
                let next = match self.rotation {
                    TetrominoRotation::Zero => TetrominoRotation::TwoSeventy,
                    TetrominoRotation::Ninety => TetrominoRotation::Zero,
                    TetrominoRotation::OneEighty => TetrominoRotation::Ninety,
                    TetrominoRotation::TwoSeventy => TetrominoRotation::OneEighty,
                };
                Tetromino::new(self.shape, next)
            },
            _ => self,
        }
    }
}

/// Every catalog instance carries exactly four cell offsets, and two
/// instances of one shape share their color whatever their rotations:
/// the color is a function of the shape alone.
pub proof fn lemma_instantiate_four_offsets_shape_color(t1: Tetromino, t2: Tetromino)
    requires
        t1.wf(),
        t2.wf(),
        t1.shape == t2.shape,
    ensures
        t1.blocks@.len() == 4,
        t1.color == t2.color,
{
}

/// Four clockwise rotation steps return a well-formed piece to its original
/// rotation and original offsets.
pub proof fn lemma_rotate_cw_four_times_identity(
    t: Tetromino,
    t1: Tetromino,
    t2: Tetromino,
    t3: Tetromino,
    t4: Tetromino,
)
    requires
        t.wf(),
        rotation_step(t, MoveDirection::CW, t1),
        rotation_step(t1, MoveDirection::CW, t2),
        rotation_step(t2, MoveDirection::CW, t3),
        rotation_step(t3, MoveDirection::CW, t4),
    ensures
        t4.shape == t.shape,
        t4.rotation == t.rotation,
        t4.blocks@ == t.blocks@,
        t4.color == t.color,
{
}

/// A clockwise step followed by a counter-clockwise step is the identity on
/// a well-formed piece: rotation, offsets and color all return.
pub proof fn lemma_rotate_cw_then_ccw_identity(t: Tetromino, t1: Tetromino, t2: Tetromino)
    requires
        t.wf(),
        rotation_step(t, MoveDirection::CW, t1),
        rotation_step(t1, MoveDirection::CCW, t2),
    ensures
        t2.shape == t.shape,
        t2.rotation == t.rotation,
        t2.blocks@ == t.blocks@,
        t2.color == t.color,
{
}

} // verus!
