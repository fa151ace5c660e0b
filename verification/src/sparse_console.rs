use vstd::prelude::*;

use crate::color::RGB;
use crate::console::{Console, DrawCall, RebuildAction};
use crate::error::ConsoleError;
use crate::geometry::{build_geometry, index_count, Vertex};
use crate::glyphs::{
    BAR_EMPTY, BAR_FULL, BOX_BOTTOM_LEFT, BOX_BOTTOM_RIGHT, BOX_TOP_LEFT, BOX_TOP_RIGHT,
};
use crate::grid::Grid;
use crate::model::{lemma_appended_next, lemma_last_position_found, ConsoleState};
use vstd::string::StringSliceAdditionalSpecFns;

verus! {

/// One stored cell of a sparse console: where it lies and what it shows.
#[derive(Clone, Copy, Debug, PartialEq, Eq, Structural)]
pub struct SparseTile {
    pub idx: usize,
    pub glyph: u8,
    pub fg: RGB,
    pub bg: RGB,
}

/// The names under which the graphics device knows a console's buffers.
#[derive(Clone, Copy, Debug, PartialEq, Eq, Structural)]
pub struct BufferHandles {
    pub vbo: u32,
    pub vao: u32,
    pub ebo: u32,
}

/// Whether the cached buffers still show the store.
#[derive(Clone, Copy, Debug, PartialEq, Eq, Structural)]
enum CacheState {
    Clean,
    Dirty,
}

/// A sparse console. Rather than every cell of the screen it stores just the
/// cells that were written, in the order in which they were written.
pub struct SparseConsole {
    width: u32,
    height: u32,
    tiles: Vec<SparseTile>,
    cache: CacheState,
    vertex_buffer: Vec<Vertex>,
    index_buffer: Vec<i32>,
    handles: BufferHandles,
}

impl View for SparseConsole {
    type V = ConsoleState;

    closed spec fn view(&self) -> ConsoleState {
        ConsoleState {
            grid: Grid { width: self.width as nat, height: self.height as nat },
            tiles: self.tiles@,
            dirty: self.cache == CacheState::Dirty,
            vertices: self.vertex_buffer@,
            indices: self.index_buffer@,
            handles: self.handles,
        }
    }
}

impl SparseConsole {
    /// A new console of `width` columns and `height` rows that draws through
    /// the given buffers. A grid of more than `u32::MAX` cells is refused
    /// with `InvalidArgument`.
    pub fn init(width: u32, height: u32, handles: BufferHandles) -> (r: Result<
        Box<SparseConsole>,
        ConsoleError,
    >)
        ensures
            r is Ok <==> width * height <= u32::MAX,
            r matches Ok(console) ==> console.wf() && console@ == ConsoleState::initial(
                width as nat,
                height as nat,
                handles,
            ),
            r matches Err(e) ==> e == ConsoleError::InvalidArgument,
    {
        assert(width as int * height as int <= 0xFFFF_FFFF * 0xFFFF_FFFF) by (nonlinear_arith)
            requires
                0 <= width as int <= 0xFFFF_FFFF,
                0 <= height as int <= 0xFFFF_FFFF,
        ;
        if width as u64 * height as u64 > u32::MAX as u64 {
            return Err(ConsoleError::InvalidArgument);
        }
        let console = SparseConsole {
            width,
            height,
            tiles: Vec::new(),
            cache: CacheState::Dirty,
            vertex_buffer: Vec::new(),
            index_buffer: Vec::new(),
            handles,
        };
        assert(console@.tiles =~= Seq::empty());
        assert(console@.vertices =~= Seq::empty());
        assert(console@.indices =~= Seq::empty());
        Ok(Box::new(console))
    }

    /// The number of columns.
    pub fn width(&self) -> (width: u32)
        ensures
            width == self@.grid.width,
    {
        self.width
    }

    /// The number of rows.
    pub fn height(&self) -> (height: u32)
        ensures
            height == self@.grid.height,
    {
        self.height
    }

    /// Whether the store has changed since the buffers were last built.
    pub fn is_dirty(&self) -> (dirty: bool)
        ensures
            dirty == self@.dirty,
    {
        match self.cache {
            CacheState::Dirty => true,
            CacheState::Clean => false,
        }
    }

    /// The stored cells, in drawing order.
    pub fn tiles(&self) -> (tiles: &Vec<SparseTile>)
        ensures
            tiles@ == self@.tiles,
    {
        &self.tiles
    }

    /// The vertices that were last built.
    pub fn vertex_buffer(&self) -> (vertices: &Vec<Vertex>)
        ensures
            vertices@ == self@.vertices,
    {
        &self.vertex_buffer
    }

    /// The indices that were last built.
    pub fn index_buffer(&self) -> (indices: &Vec<i32>)
        ensures
            indices@ == self@.indices,
    {
        &self.index_buffer
    }

    /// The buffers on the graphics device through which the console draws.
    pub fn handles(&self) -> (handles: BufferHandles)
        ensures
            handles == self@.handles,
    {
        self.handles
    }

    /// Marks the cached buffers as stale, so that the next rebuild builds
    /// them anew: for the owner of the graphics context, when the buffers on
    /// the device were lost. This is also the one place where a change of the
    /// store makes the cache stale.
    pub fn mark_dirty(&mut self)
        ensures
            final(self)@ == old(self)@.invalidated(),
            old(self).wf() ==> final(self).wf(),
    {
        self.cache = CacheState::Dirty;
    }

    /// The one place where the cache becomes fresh.
    fn mark_clean(&mut self)
        ensures
            final(self)@ == (ConsoleState { dirty: false, ..old(self)@ }),
    {
        self.cache = CacheState::Clean;
    }

    /// The one place where the store grows.
    fn push_tile(&mut self, tile: SparseTile)
        requires
            old(self).wf(),
            tile.idx < old(self)@.grid.cells(),
        ensures
            final(self).wf(),
            final(self)@ == old(self)@.appended(seq![tile]),
    {
        self.mark_dirty();
        self.tiles.push(tile);
        assert(self@.tiles =~= old(self)@.tiles + seq![tile]);
    }

    /// Whether a cell lies on the grid.
    pub(crate) fn contains(&self, x: i64, y: i64) -> (b: bool)
        ensures
            b == self@.grid.in_bounds(x as int, y as int),
    {
        0 <= x && x < self.width as i64 && 0 <= y && y < self.height as i64
    }

    /// The index of a cell of the grid.
    fn index_of(&self, x: i64, y: i64) -> (idx: usize)
        requires
            self.wf(),
            self@.grid.in_bounds(x as int, y as int),
        ensures
            idx == self@.grid.cell_index(x as int, y as int),
            idx < self@.grid.cells(),
    {
        proof {
            self@.grid.lemma_cell_index_in_range(x as int, y as int);
        }
        (((self.height - 1 - y as u32) * self.width) + x as u32) as usize
    }

    /// Appends one entry at a cell of the grid.
    pub(crate) fn push_cell(&mut self, x: i64, y: i64, fg: RGB, bg: RGB, glyph: u8)
        requires
            old(self).wf(),
            old(self)@.grid.in_bounds(x as int, y as int),
        ensures
            final(self).wf(),
            final(self)@ == old(self)@.appended(
                seq![old(self)@.grid.tile_at(x as int, y as int, fg, bg, glyph)],
            ),
    {
        let idx = self.index_of(x, y);
        self.push_tile(SparseTile { idx, glyph, fg, bg });
    }

    /// Makes a dirty console clean: builds the buffers of its store, unless
    /// the store is empty.
    fn rebuild_vertices(&mut self) -> (r: Result<RebuildAction, ConsoleError>)
        requires
            old(self).wf(),
            old(self)@.dirty,
        ensures
            r is Ok <==> old(self)@.buildable(),
            r is Ok ==> final(self).wf() && final(self)@ == old(self)@.rebuilt() && r
                == Ok::<RebuildAction, ConsoleError>(old(self)@.rebuild_action()),
            r is Err ==> final(self)@ == old(self)@ && r == Err::<RebuildAction, ConsoleError>(
                ConsoleError::GraphicsResourceError,
            ),
    {
        if self.tiles.is_empty() {
            self.mark_clean();
            return Ok(RebuildAction::Keep);
        }
        match build_geometry(self.width, self.height, &self.tiles) {
            Ok(geometry) => {
                self.vertex_buffer = geometry.vertices;
                self.index_buffer = geometry.indices;
                self.mark_clean();
                Ok(RebuildAction::Upload)
            },
            Err(e) => Err(e),
        }
    }
}

impl Console for SparseConsole {
    open spec fn wf(&self) -> bool {
        self@.wf()
    }

    open spec fn grid(&self) -> Grid {
        self@.grid
    }

    open spec fn stale(&self) -> bool {
        self@.dirty
    }

    /// Brings the cached buffers up to date with the store.
    ///
    /// A clean console is left alone. A dirty one becomes clean: its buffers
    /// are replaced by the geometry of the store, to be uploaded, unless the
    /// store is empty, which leaves them as they are. A store of more cells
    /// than the index buffer can name is refused with `GraphicsResourceError`
    /// and stays dirty.
    fn rebuild_if_dirty(&mut self) -> (r: Result<RebuildAction, ConsoleError>)
        ensures
            r is Ok <==> !old(self)@.dirty || old(self)@.buildable(),
            r is Ok ==> final(self)@ == old(self)@.rebuilt() && r == Ok::<
                RebuildAction,
                ConsoleError,
            >(old(self)@.rebuild_action()),
            r is Err ==> final(self)@ == old(self)@ && r == Err::<RebuildAction, ConsoleError>(
                ConsoleError::GraphicsResourceError,
            ),
    {
        match self.cache {
            CacheState::Clean => Ok(RebuildAction::Keep),
            CacheState::Dirty => self.rebuild_vertices(),
        }
    }

    /// Gives the draw call of the frame: six indices for every stored cell,
    /// after the upload that a rebuild asks for. The console is clean
    /// afterwards. A store of more cells than one draw call can take is
    /// refused with `GraphicsResourceError`, and the console stays as it is.
    fn gl_draw(&mut self) -> (r: Result<DrawCall, ConsoleError>)
        ensures
            r is Ok <==> old(self)@.drawable(),
            r is Ok ==> final(self)@ == old(self)@.rebuilt() && r == Ok::<DrawCall, ConsoleError>(
                old(self)@.draw_call(),
            ),
            r is Err ==> final(self)@ == old(self)@ && r == Err::<DrawCall, ConsoleError>(
                ConsoleError::GraphicsResourceError,
            ),
    {
        let count = index_count(self.tiles.len())?;
        let action = self.rebuild_if_dirty()?;
        Ok(DrawCall { action, index_count: count })
    }

    /// The logical index of the cell `(x, y)`: `(height - 1 - y) * width + x`
    /// for a cell of the grid, and `OutOfBounds` for any other.
    fn at(&self, x: i32, y: i32) -> (r: Result<usize, ConsoleError>) {
        if !self.contains(x as i64, y as i64) {
            return Err(ConsoleError::OutOfBounds);
        }
        Ok(self.index_of(x as i64, y as i64))
    }

    /// Empties the store.
    fn cls(&mut self)
        ensures
            final(self)@ == old(self)@.cleared(),
    {
        self.mark_dirty();
        self.tiles.clear();
        assert(self@.tiles =~= Seq::empty());
    }

    /// Empties the store. A sparse console has no background of its own, so
    /// the colour changes nothing.
    fn cls_bg(&mut self, _background: RGB)
        ensures
            final(self)@ == old(self)@.cleared(),
    {
        self.cls();
    }

    /// Prints the bytes of a text from `(x, y)` to the right, white on black:
    /// `print_color` with these colours.
    fn print(&mut self, x: i32, y: i32, output: &str) -> (r: Result<(), ConsoleError>)
        ensures
            r is Ok <==> old(self)@.grid.text_fits(x as int, y as int, output.spec_bytes().len()),
            r is Ok ==> final(self)@ == old(self)@.appended(
                old(self)@.grid.text_tiles(
                    x as int,
                    y as int,
                    RGB::white(),
                    RGB::black(),
                    output.spec_bytes(),
                ),
            ),
            r is Err ==> final(self)@ == old(self)@ && r == Err::<(), ConsoleError>(
                ConsoleError::OutOfBounds,
            ),
    {
        self.print_color(x, y, RGB::white(), RGB::black(), output)
    }

    /// Appends one entry for each byte of a text, from `(x, y)` to the right.
    /// A text that starts off the grid or runs over the end of its row is
    /// refused with `OutOfBounds`, and nothing is stored.
    fn print_color(&mut self, x: i32, y: i32, fg: RGB, bg: RGB, output: &str) -> (r: Result<
        (),
        ConsoleError,
    >)
        ensures
            r is Ok <==> old(self)@.grid.text_fits(x as int, y as int, output.spec_bytes().len()),
            r is Ok ==> final(self)@ == old(self)@.appended(
                old(self)@.grid.text_tiles(x as int, y as int, fg, bg, output.spec_bytes()),
            ),
            r is Err ==> final(self)@ == old(self)@ && r == Err::<(), ConsoleError>(
                ConsoleError::OutOfBounds,
            ),
    {
        if !self.contains(x as i64, y as i64) {
            return Err(ConsoleError::OutOfBounds);
        }
        let bytes = output.as_bytes();
        let room: u32 = self.width - x as u32;
        if bytes.len() > room as usize {
            return Err(ConsoleError::OutOfBounds);
        }
        let ghost start = self@;
        let ghost run = start.grid.text_tiles(x as int, y as int, fg, bg, bytes@);
        self.mark_dirty();
        assert(self@ == start.appended(run.take(0))) by {
            assert(start.tiles + run.take(0) =~= start.tiles);
        }
        let mut idx: usize = self.index_of(x as i64, y as i64);
        let mut i: usize = 0;
        while i < bytes.len()
            invariant
                0 <= i <= bytes@.len(),
                start.wf(),
                start.grid.in_bounds(x as int, y as int),
                x + bytes@.len() <= start.grid.width,
                run == start.grid.text_tiles(x as int, y as int, fg, bg, bytes@),
                self.wf(),
                self@ == start.appended(run.take(i as int)),
                idx == start.grid.cell_index(x as int, y as int) + i,
            decreases bytes@.len() - i,
        {
            proof {
                start.grid.lemma_cell_index_in_range(x + i, y as int);
            }
            self.push_tile(SparseTile { idx, glyph: bytes[i], fg, bg });
            proof {
                lemma_appended_next(start, run, i as int);
            }
            idx += 1;
            i += 1;
        }
        assert(run.take(i as int) =~= run);
        Ok(())
    }

    /// Appends one entry at `(x, y)`, on top of what is stored there. A cell
    /// off the grid is refused with `OutOfBounds`.
    fn set(&mut self, x: i32, y: i32, fg: RGB, bg: RGB, glyph: u8) -> (r: Result<(), ConsoleError>)
        ensures
            r is Ok <==> old(self)@.grid.in_bounds(x as int, y as int),
            r is Ok ==> final(self)@ == old(self)@.appended(
                seq![old(self)@.grid.tile_at(x as int, y as int, fg, bg, glyph)],
            ),
            r is Err ==> final(self)@ == old(self)@ && r == Err::<(), ConsoleError>(
                ConsoleError::OutOfBounds,
            ),
    {
        if !self.contains(x as i64, y as i64) {
            return Err(ConsoleError::OutOfBounds);
        }
        self.push_cell(x as i64, y as i64, fg, bg, glyph);
        Ok(())
    }

    /// Gives the topmost entry at `(x, y)` another background, and adds no
    /// entry. A cell off the grid is refused with `OutOfBounds`, one at which
    /// nothing is stored with `CellNotFound`.
    fn set_bg(&mut self, x: i32, y: i32, bg: RGB) -> (r: Result<(), ConsoleError>)
        ensures
            r is Ok <==> old(self)@.grid.in_bounds(x as int, y as int) && old(self)@.has_cell(
                old(self)@.grid.cell_index(x as int, y as int),
            ),
            r is Ok ==> final(self)@ == old(self)@.with_background(x as int, y as int, bg),
            r is Err ==> final(self)@ == old(self)@ && r == Err::<(), ConsoleError>(
                if old(self)@.grid.in_bounds(x as int, y as int) {
                    ConsoleError::CellNotFound
                } else {
                    ConsoleError::OutOfBounds
                },
            ),
    {
        if !self.contains(x as i64, y as i64) {
            return Err(ConsoleError::OutOfBounds);
        }
        let idx = self.index_of(x as i64, y as i64);
        let mut i: usize = self.tiles.len();
        while i > 0
            invariant
                i <= self.tiles@.len(),
                self@ == old(self)@,
                self.wf(),
                old(self)@.grid.in_bounds(x as int, y as int),
                idx == old(self)@.grid.cell_index(x as int, y as int),
                forall|j: int|
                    i <= j < self.tiles@.len() ==> (#[trigger] self.tiles@[j]).idx != idx,
            decreases i,
        {
            i -= 1;
            let tile = self.tiles[i];
            if tile.idx == idx {
                proof {
                    lemma_last_position_found(self.tiles@, idx as int, i as int);
                    assert(old(self)@.tiles[i as int].idx == idx);
                }
                self.tiles.set(i, SparseTile { idx: tile.idx, glyph: tile.glyph, fg: tile.fg, bg });
                self.mark_dirty();
                return Ok(());
            }
        }
        Err(ConsoleError::CellNotFound)
    }

    /// Draws a box between the corners `(x, y)` and `(x + width, y +
    /// height)`: blank cells, white on black, over the whole of it, then the
    /// border over them in the given colours. Unless both corners lie on the
    /// grid the box is refused with `OutOfBounds`, and nothing is stored.
    fn draw_box(&mut self, x: i32, y: i32, width: i32, height: i32, fg: RGB, bg: RGB) -> (r:
        Result<(), ConsoleError>)
        ensures
            r is Ok <==> old(self)@.grid.box_fits(x as int, y as int, width as int, height as int),
            r is Ok ==> final(self)@ == old(self)@.appended(
                old(self)@.grid.box_tiles(x as int, y as int, width as int, height as int, fg, bg),
            ),
            r is Err ==> final(self)@ == old(self)@ && r == Err::<(), ConsoleError>(
                ConsoleError::OutOfBounds,
            ),
    {
        let (sx, sy, w, h) = (x as i64, y as i64, width as i64, height as i64);
        if !(self.contains(sx, sy) && self.contains(sx + w, sy + h)) {
            return Err(ConsoleError::OutOfBounds);
        }
        let ghost start = self@;
        let ghost grid = start.grid;
        self.fill_box(sx, sy, w, h);
        self.push_cell(sx, sy, fg, bg, BOX_TOP_LEFT);
        self.push_cell(sx + w, sy, fg, bg, BOX_TOP_RIGHT);
        self.push_cell(sx, sy + h, fg, bg, BOX_BOTTOM_LEFT);
        self.push_cell(sx + w, sy + h, fg, bg, BOX_BOTTOM_RIGHT);
        proof {
            let interior = grid.box_interior(sx as int, sy as int, w as int, h as int);
            let corners = grid.box_corners(sx as int, sy as int, w as int, h as int, fg, bg);
            assert(self@.tiles =~= start.tiles + (interior + corners));
        }
        self.draw_box_rows(sx, sy, w, h, fg, bg);
        self.draw_box_columns(sx, sy, w, h, fg, bg);
        proof {
            let interior = grid.box_interior(sx as int, sy as int, w as int, h as int);
            let corners = grid.box_corners(sx as int, sy as int, w as int, h as int, fg, bg);
            let rows = grid.box_horizontal_edges(sx as int, sy as int, w as int, h as int, fg, bg);
            let columns = grid.box_vertical_edges(sx as int, sy as int, w as int, h as int, fg, bg);
            assert(self@.tiles =~= start.tiles + (interior + corners + rows + columns));
        }
        Ok(())
    }

    /// Draws a bar of `width` cells from `(x, y)` to the right of which the
    /// cells up to the offset `fill` are full, that one included, and the
    /// others empty. The fill is the bar's share of the width, as whole
    /// cells; whoever calls works it out. A bar that leaves the grid is
    /// refused with `OutOfBounds`, and nothing is stored.
    fn draw_bar_horizontal(
        &mut self,
        x: i32,
        y: i32,
        width: i32,
        fill: i64,
        fg: RGB,
        bg: RGB,
    ) -> (r: Result<(), ConsoleError>)
        ensures
            r is Ok <==> old(self)@.grid.row_fits(x as int, y as int, width as int),
            r is Ok ==> final(self)@ == old(self)@.appended(
                old(self)@.grid.bar_horizontal_tiles(
                    x as int,
                    y as int,
                    width as int,
                    fill as int,
                    fg,
                    bg,
                ),
            ),
            r is Err ==> final(self)@ == old(self)@ && r == Err::<(), ConsoleError>(
                ConsoleError::OutOfBounds,
            ),
    {
        let (sx, sy, w) = (x as i64, y as i64, width as i64);
        if w > 0 && !(self.contains(sx, sy) && self.contains(sx + w - 1, sy)) {
            return Err(ConsoleError::OutOfBounds);
        }
        let ghost start = self@;
        let ghost run = start.grid.bar_horizontal_tiles(
            sx as int,
            sy as int,
            w as int,
            fill as int,
            fg,
            bg,
        );
        self.mark_dirty();
        assert(self@ == start.appended(run.take(0))) by {
            assert(start.tiles + run.take(0) =~= start.tiles);
        }
        let mut i: i64 = 0;
        while i < w
            invariant
                0 <= i,
                w > 0 ==> i <= w,
                w <= 0 ==> i == 0,
                start.wf(),
                start.grid.row_fits(sx as int, sy as int, w as int),
                run == start.grid.bar_horizontal_tiles(
                    sx as int,
                    sy as int,
                    w as int,
                    fill as int,
                    fg,
                    bg,
                ),
                -0x8000_0000 <= sx <= 0x7FFF_FFFF,
                w <= 0x7FFF_FFFF,
                self.wf(),
                self@ == start.appended(run.take(i as int)),
            decreases w - i,
        {
            let glyph = if i <= fill {
                BAR_FULL
            } else {
                BAR_EMPTY
            };
            self.push_cell(sx + i, sy, fg, bg, glyph);
            proof {
                lemma_appended_next(start, run, i as int);
            }
            i += 1;
        }
        assert(run.take(i as int) =~= run);
        Ok(())
    }

    /// Draws a bar of `height` cells from `(x, y)` downwards of which the
    /// lowest `fill` cells are full and those above them empty. The fill is
    /// the bar's share of the height, as whole cells; whoever calls works it
    /// out. A bar that leaves the grid is refused with `OutOfBounds`, and
    /// nothing is stored.
    fn draw_bar_vertical(
        &mut self,
        x: i32,
        y: i32,
        height: i32,
        fill: i64,
        fg: RGB,
        bg: RGB,
    ) -> (r: Result<(), ConsoleError>)
        ensures
            r is Ok <==> old(self)@.grid.column_fits(x as int, y as int, height as int),
            r is Ok ==> final(self)@ == old(self)@.appended(
                old(self)@.grid.bar_vertical_tiles(
                    x as int,
                    y as int,
                    height as int,
                    fill as int,
                    fg,
                    bg,
                ),
            ),
            r is Err ==> final(self)@ == old(self)@ && r == Err::<(), ConsoleError>(
                ConsoleError::OutOfBounds,
            ),
    {
        let (sx, sy, h) = (x as i64, y as i64, height as i64);
        if h > 0 && !(self.contains(sx, sy) && self.contains(sx, sy + h - 1)) {
            return Err(ConsoleError::OutOfBounds);
        }
        let ghost start = self@;
        let ghost run = start.grid.bar_vertical_tiles(
            sx as int,
            sy as int,
            h as int,
            fill as int,
            fg,
            bg,
        );
        self.mark_dirty();
        assert(self@ == start.appended(run.take(0))) by {
            assert(start.tiles + run.take(0) =~= start.tiles);
        }
        let mut i: i64 = 0;
        while i < h
            invariant
                0 <= i,
                h > 0 ==> i <= h,
                h <= 0 ==> i == 0,
                start.wf(),
                start.grid.column_fits(sx as int, sy as int, h as int),
                run == start.grid.bar_vertical_tiles(
                    sx as int,
                    sy as int,
                    h as int,
                    fill as int,
                    fg,
                    bg,
                ),
                -0x8000_0000 <= sy <= 0x7FFF_FFFF,
                h <= 0x7FFF_FFFF,
                self.wf(),
                self@ == start.appended(run.take(i as int)),
            decreases h - i,
        {
            let glyph = if fill >= h - i {
                BAR_FULL
            } else {
                BAR_EMPTY
            };
            self.push_cell(sx, sy + i, fg, bg, glyph);
            proof {
                lemma_appended_next(start, run, i as int);
            }
            i += 1;
        }
        assert(run.take(i as int) =~= run);
        Ok(())
    }

    /// Prints a text white on black in the row `y`, from the column `width /
    /// 2 - len / 2` on, with `len` the number of its bytes and both halves
    /// rounded down: `print` at that column.
    fn print_centered(&mut self, y: i32, text: &str) -> (r: Result<(), ConsoleError>)
        ensures
            r is Ok <==> old(self)@.grid.text_fits(
                old(self)@.grid.centered_column(text.spec_bytes().len()),
                y as int,
                text.spec_bytes().len(),
            ),
            r is Ok ==> final(self)@ == old(self)@.appended(
                old(self)@.grid.text_tiles(
                    old(self)@.grid.centered_column(text.spec_bytes().len()),
                    y as int,
                    RGB::white(),
                    RGB::black(),
                    text.spec_bytes(),
                ),
            ),
            r is Err ==> final(self)@ == old(self)@ && r == Err::<(), ConsoleError>(
                ConsoleError::OutOfBounds,
            ),
    {
        self.print_color_centered(y, RGB::white(), RGB::black(), text)
    }

    /// Prints a text in the given colours in the row `y`, from the column
    /// `width / 2 - len / 2` on, with `len` the number of its bytes and both
    /// halves rounded down: `print_color` at that column.
    fn print_color_centered(&mut self, y: i32, fg: RGB, bg: RGB, text: &str) -> (r: Result<
        (),
        ConsoleError,
    >)
        ensures
            r is Ok <==> old(self)@.grid.text_fits(
                old(self)@.grid.centered_column(text.spec_bytes().len()),
                y as int,
                text.spec_bytes().len(),
            ),
            r is Ok ==> final(self)@ == old(self)@.appended(
                old(self)@.grid.text_tiles(
                    old(self)@.grid.centered_column(text.spec_bytes().len()),
                    y as int,
                    fg,
                    bg,
                    text.spec_bytes(),
                ),
            ),
            r is Err ==> final(self)@ == old(self)@ && r == Err::<(), ConsoleError>(
                ConsoleError::OutOfBounds,
            ),
    {
        let half_width: u32 = self.width / 2;
        let half_len: usize = text.len() / 2;
        if half_len > half_width as usize {
            return Err(ConsoleError::OutOfBounds);
        }
        let x: i32 = (half_width - half_len as u32) as i32;
        self.print_color(x, y, fg, bg, text)
    }
}

} // verus!
