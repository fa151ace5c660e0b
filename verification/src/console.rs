use vstd::prelude::*;

use crate::color::RGB;
use crate::error::ConsoleError;
use crate::grid::Grid;

verus! {

/// The storage type for the cells of a console that keeps every cell.
#[derive(Clone, Copy, Debug, PartialEq, Eq, Structural)]
pub struct Tile {
    pub glyph: u8,
    pub fg: RGB,
    pub bg: RGB,
}

/// What the owner of the graphics context has to do with the cached buffers.
#[derive(Clone, Copy, Debug, PartialEq, Eq, Structural)]
pub enum RebuildAction {
    /// The buffers on the device stay as they are.
    Keep,
    /// The cached buffers are new and replace those on the device.
    Upload,
}

/// One indexed draw of triangles, and what has to happen before it.
#[derive(Clone, Copy, Debug, PartialEq, Eq, Structural)]
pub struct DrawCall {
    pub action: RebuildAction,
    /// The number of indices to draw.
    pub index_count: i32,
}

/// What every kind of console offers.
///
/// The clauses here hold of every console: the grid never changes, a call
/// that succeeds in changing the contents leaves the console stale, a call
/// that fails leaves its staleness alone, and only rebuilding or drawing
/// makes it fresh. An implementation adds what the call does to its contents.
pub trait Console {
    /// Whether the value is a valid console.
    spec fn wf(&self) -> bool;

    /// The grid that the console addresses.
    spec fn grid(&self) -> Grid;

    /// Whether the contents have changed since the buffers were last built.
    spec fn stale(&self) -> bool;

    /// Rebuilds the buffers if the contents have changed since they were
    /// built, and says whether they are to be uploaded.
    fn rebuild_if_dirty(&mut self) -> (r: Result<RebuildAction, ConsoleError>)
        requires
            old(self).wf(),
        ensures
            final(self).wf(),
            final(self).grid() == old(self).grid(),
            r is Ok ==> !final(self).stale(),
            r is Err ==> final(self).stale() && old(self).stale(),
    ;

    /// Brings the buffers up to date and gives the draw call of the frame.
    fn gl_draw(&mut self) -> (r: Result<DrawCall, ConsoleError>)
        requires
            old(self).wf(),
        ensures
            final(self).wf(),
            final(self).grid() == old(self).grid(),
            r is Ok ==> !final(self).stale(),
            r is Err ==> final(self).stale() == old(self).stale(),
    ;

    /// The logical index of the cell `(x, y)`.
    fn at(&self, x: i32, y: i32) -> (r: Result<usize, ConsoleError>)
        requires
            self.wf(),
        ensures
            self.grid().in_bounds(x as int, y as int) ==> r == Ok::<usize, ConsoleError>(
                self.grid().cell_index(x as int, y as int) as usize,
            ),
            !self.grid().in_bounds(x as int, y as int) ==> r == Err::<usize, ConsoleError>(
                ConsoleError::OutOfBounds,
            ),
    ;

    /// Clears the console.
    fn cls(&mut self)
        requires
            old(self).wf(),
        ensures
            final(self).wf(),
            final(self).grid() == old(self).grid(),
            final(self).stale(),
    ;

    /// Clears the console to a background colour, where the console has one.
    fn cls_bg(&mut self, background: RGB)
        requires
            old(self).wf(),
        ensures
            final(self).wf(),
            final(self).grid() == old(self).grid(),
            final(self).stale(),
    ;

    /// Prints a text from `(x, y)` to the right, white on black.
    fn print(&mut self, x: i32, y: i32, output: &str) -> (r: Result<(), ConsoleError>)
        requires
            old(self).wf(),
        ensures
            final(self).wf(),
            final(self).grid() == old(self).grid(),
            r is Ok ==> final(self).stale(),
            r is Err ==> final(self).stale() == old(self).stale(),
    ;

    /// Prints a text from `(x, y)` to the right in the given colours.
    fn print_color(&mut self, x: i32, y: i32, fg: RGB, bg: RGB, output: &str) -> (r: Result<
        (),
        ConsoleError,
    >)
        requires
            old(self).wf(),
        ensures
            final(self).wf(),
            final(self).grid() == old(self).grid(),
            r is Ok ==> final(self).stale(),
            r is Err ==> final(self).stale() == old(self).stale(),
    ;

    /// Sets one cell to a glyph in the given colours.
    fn set(&mut self, x: i32, y: i32, fg: RGB, bg: RGB, glyph: u8) -> (r: Result<(), ConsoleError>)
        requires
            old(self).wf(),
        ensures
            final(self).wf(),
            final(self).grid() == old(self).grid(),
            r is Ok ==> final(self).stale(),
            r is Err ==> final(self).stale() == old(self).stale(),
    ;

    /// Changes the background of one cell.
    fn set_bg(&mut self, x: i32, y: i32, bg: RGB) -> (r: Result<(), ConsoleError>)
        requires
            old(self).wf(),
        ensures
            final(self).wf(),
            final(self).grid() == old(self).grid(),
            r is Ok ==> final(self).stale(),
            r is Err ==> final(self).stale() == old(self).stale(),
    ;

    /// Draws a box with line glyphs between the corners `(x, y)` and
    /// `(x + width, y + height)`.
    fn draw_box(&mut self, x: i32, y: i32, width: i32, height: i32, fg: RGB, bg: RGB) -> (r:
        Result<(), ConsoleError>)
        requires
            old(self).wf(),
        ensures
            final(self).wf(),
            final(self).grid() == old(self).grid(),
            r is Ok ==> final(self).stale(),
            r is Err ==> final(self).stale() == old(self).stale(),
    ;

    /// Draws a horizontal progress bar of `width` cells from `(x, y)` to the
    /// right, full up to the offset `fill`.
    fn draw_bar_horizontal(
        &mut self,
        x: i32,
        y: i32,
        width: i32,
        fill: i64,
        fg: RGB,
        bg: RGB,
    ) -> (r: Result<(), ConsoleError>)
        requires
            old(self).wf(),
        ensures
            final(self).wf(),
            final(self).grid() == old(self).grid(),
            r is Ok ==> final(self).stale(),
            r is Err ==> final(self).stale() == old(self).stale(),
    ;

    /// Draws a vertical progress bar of `height` cells from `(x, y)`
    /// downwards, of which the lowest `fill` are full.
    fn draw_bar_vertical(
        &mut self,
        x: i32,
        y: i32,
        height: i32,
        fill: i64,
        fg: RGB,
        bg: RGB,
    ) -> (r: Result<(), ConsoleError>)
        requires
            old(self).wf(),
        ensures
            final(self).wf(),
            final(self).grid() == old(self).grid(),
            r is Ok ==> final(self).stale(),
            r is Err ==> final(self).stale() == old(self).stale(),
    ;

    /// Prints a text in the middle of the row `y`, white on black.
    fn print_centered(&mut self, y: i32, text: &str) -> (r: Result<(), ConsoleError>)
        requires
            old(self).wf(),
        ensures
            final(self).wf(),
            final(self).grid() == old(self).grid(),
            r is Ok ==> final(self).stale(),
            r is Err ==> final(self).stale() == old(self).stale(),
    ;

    /// Prints a text in the middle of the row `y` in the given colours.
    fn print_color_centered(&mut self, y: i32, fg: RGB, bg: RGB, text: &str) -> (r: Result<
        (),
        ConsoleError,
    >)
        requires
            old(self).wf(),
        ensures
            final(self).wf(),
            final(self).grid() == old(self).grid(),
            r is Ok ==> final(self).stale(),
            r is Err ==> final(self).stale() == old(self).stale(),
    ;
}

} // verus!
