//! A sparse character-cell console: only the cells that were written are
//! stored, in drawing order, and turned into quads for a glyph atlas.
//!
//! The console works on integers throughout. A colour channel is the bit
//! pattern of a single-precision number, and a vertex gives its corner in
//! whole cells of the grid and of the atlas; whoever owns the graphics
//! context takes the fractions and talks to the device.

pub mod color;
pub mod console;
pub mod drawing;
pub mod error;
pub mod geometry;
pub mod glyphs;
pub mod grid;
pub mod laws;
pub mod model;
pub mod shapes;
pub mod sparse_console;

pub use crate::color::RGB;
pub use crate::console::{Console, DrawCall, RebuildAction, Tile};
pub use crate::error::ConsoleError;
pub use crate::geometry::{build_geometry, Geometry, Vertex};
pub use crate::model::ConsoleState;
pub use crate::sparse_console::{BufferHandles, SparseConsole, SparseTile};
