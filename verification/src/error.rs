use vstd::prelude::*;

verus! {

/// Why a console operation was refused.
#[derive(Clone, Copy, Debug, PartialEq, Eq, Structural)]
pub enum ConsoleError {
    /// A coordinate lies outside the grid.
    OutOfBounds,
    /// An edit of an existing cell found no entry at the coordinate.
    CellNotFound,
    /// An argument is degenerate, such as a grid of more cells than an index
    /// can count or a progress bar with a maximum of zero.
    InvalidArgument,
    /// The store cannot be turned into buffers that the graphics device accepts.
    GraphicsResourceError,
}

} // verus!
