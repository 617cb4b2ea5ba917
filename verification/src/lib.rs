//! The verified core of a terminal falling-block puzzle game: the piece
//! catalog with its rotation tables, the fixed-size board and its commit
//! operation, the glyph-level render mapper, the declarative layout
//! splitter, and the decision logic of the timed game loop. The surrounding
//! program owns the terminal itself and feeds events and timestamps in.

pub mod board;
pub mod engine;
pub mod render;
pub mod space_partition;
pub mod tetromino;
pub mod utils;
