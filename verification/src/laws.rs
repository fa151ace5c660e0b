use vstd::prelude::*;

use crate::color::RGB;
use crate::console::RebuildAction;
use crate::geometry::{
    glyph_left, glyph_top, quad_vertex, store_indices, store_vertices, triangle_corner,
    vertex_attributes, ATLAS_CELLS, MAX_BUILT_QUADS, MAX_QUADS, VERTEX_SIZE,
};
use crate::glyphs::{BAR_EMPTY, BAR_FULL, BLANK};
use crate::grid::{span, Grid};
use crate::model::{lemma_last_position, ConsoleState};
use crate::sparse_console::SparseTile;
use vstd::arithmetic::div_mod::lemma_multiply_divide_lt;

verus! {

/// The quad of the `k`-th stored cell stands at the `k`-th place of both
/// buffers: its four corners in the vertex buffer, and in the index buffer
/// its six indices, which name no other vertices than those four, as long as
/// the store is small enough to be built.
pub proof fn lemma_quads_follow_store(width: int, tiles: Seq<SparseTile>, k: int)
    requires
        0 <= k < tiles.len(),
    ensures
        store_vertices(width, tiles).len() == 4 * tiles.len(),
        store_indices(tiles.len()).len() == 6 * tiles.len(),
        forall|corner: int|
            0 <= corner < 4 ==> #[trigger] store_vertices(width, tiles)[4 * k + corner]
                == quad_vertex(width, tiles[k], corner),
        tiles.len() <= MAX_BUILT_QUADS ==> forall|position: int|
            0 <= position < 6 ==> #[trigger] store_indices(tiles.len())[6 * k + position] == 4 * k
                + triangle_corner(position),
{
    assert forall|position: int|
        0 <= position < 6 && tiles.len() <= MAX_BUILT_QUADS implies #[trigger] store_indices(
        tiles.len(),
    )[6 * k + position] == 4 * k + triangle_corner(position) by {
        assert((6 * k + position) / 6 == k);
        assert((6 * k + position) % 6 == position);
    }
    assert forall|corner: int| 0 <= corner < 4 implies #[trigger] store_vertices(width, tiles)[4
        * k + corner] == quad_vertex(width, tiles[k], corner) by {
        assert((4 * k + corner) / 4 == k);
        assert((4 * k + corner) % 4 == corner);
    }
}

/// Every index names a vertex of the vertex buffer, as long as the store is
/// small enough to be built; and a store that one draw call can take is
/// small enough to be built.
pub proof fn lemma_indices_name_vertices(width: int, tiles: Seq<SparseTile>, j: int)
    requires
        tiles.len() <= MAX_BUILT_QUADS,
        0 <= j < 6 * tiles.len(),
    ensures
        0 <= store_indices(tiles.len())[j] < store_vertices(width, tiles).len(),
        MAX_QUADS <= MAX_BUILT_QUADS,
{
}

/// The quad of a cell that was written at `(x, y)` lies at the column `x` and,
/// counted from the bottom, at the row `height - 1 - y`; its texture
/// coordinates are the corners of its glyph's cell of the atlas.
pub proof fn lemma_quad_of_cell(
    grid: Grid,
    x: int,
    y: int,
    fg: RGB,
    bg: RGB,
    glyph: u8,
    corner: int,
)
    requires
        grid.cells() <= u32::MAX,
        grid.in_bounds(x, y),
        0 <= corner < 4,
    ensures
        ({
            let vertex = quad_vertex(
                grid.width as int,
                grid.tile_at(x, y, fg, bg, glyph),
                corner,
            );
            &&& vertex.x == x
            &&& vertex.y == grid.height - 1 - y
            &&& vertex.fg == fg
            &&& vertex.bg == bg
            &&& glyph_left(glyph) <= vertex.u <= glyph_left(glyph) + 1 <= ATLAS_CELLS
            &&& 0 <= glyph_top(glyph) - 1 <= vertex.v <= glyph_top(glyph) <= ATLAS_CELLS
        }),
{
    grid.lemma_cell_index_in_range(x, y);
    grid.lemma_cell_index_splits(x, y);
}

/// The attributes of a vertex are numbered from zero and tightly packed: each
/// begins where the one before it ends, and the last ends the vertex.
pub proof fn lemma_vertex_is_tightly_packed()
    ensures
        vertex_attributes().len() == 4,
        vertex_attributes()[0].offset == 0,
        forall|i: int| 0 <= i < 4 ==> (#[trigger] vertex_attributes()[i]).location == i,
        forall|i: int|
            0 <= i < 3 ==> vertex_attributes()[i + 1].offset == (
            #[trigger] vertex_attributes()[i]).offset + vertex_attributes()[i].size,
        vertex_attributes()[3].offset + vertex_attributes()[3].size == VERTEX_SIZE,
{
}

/// A console that was cleared draws nothing: the rebuild that follows asks
/// for no upload, and the draw call after it asks for no index.
pub proof fn lemma_cleared_console_draws_nothing(s: ConsoleState)
    ensures
        s.cleared().buildable(),
        s.cleared().rebuild_action() == RebuildAction::Keep,
        s.cleared().rebuilt().drawable(),
        s.cleared().rebuilt().draw_call().action == RebuildAction::Keep,
        s.cleared().rebuilt().draw_call().index_count == 0,
{
}

/// Whatever changes the store leaves the console dirty, and a rebuild leaves
/// it clean.
pub proof fn lemma_dirty_until_rebuilt(
    s: ConsoleState,
    tiles: Seq<SparseTile>,
    x: int,
    y: int,
    bg: RGB,
)
    ensures
        s.appended(tiles).dirty,
        s.cleared().dirty,
        s.with_background(x, y, bg).dirty,
        s.invalidated().dirty,
        !s.rebuilt().dirty,
        !s.dirty ==> s.rebuilt() == s,
{
}

/// Every change leaves a valid console valid: appending cells of the grid,
/// clearing, a new background for a stored cell, and the rebuild of a store
/// that is small enough to be built.
pub proof fn lemma_changes_keep_wf(
    s: ConsoleState,
    tiles: Seq<SparseTile>,
    x: int,
    y: int,
    bg: RGB,
)
    requires
        s.wf(),
    ensures
        s.grid.holds(tiles) ==> s.appended(tiles).wf(),
        s.cleared().wf(),
        s.invalidated().wf(),
        s.has_cell(s.grid.cell_index(x, y)) ==> s.with_background(x, y, bg).wf(),
        s.buildable() ==> s.rebuilt().wf(),
{
    lemma_last_position(s.tiles, s.grid.cell_index(x, y));
}

/// Every corner of every quad of a store on the grid lies on the grid and on
/// the atlas: in clip space between -1 and 1 in both directions, and in
/// texture space between 0 and 1.
pub proof fn lemma_quads_lie_on_grid(grid: Grid, tiles: Seq<SparseTile>, k: int)
    requires
        grid.cells() <= u32::MAX,
        grid.holds(tiles),
        0 <= k < 4 * tiles.len(),
    ensures
        ({
            let vertex = store_vertices(grid.width as int, tiles)[k];
            &&& vertex.x < grid.width
            &&& vertex.y < grid.height
            &&& vertex.u <= ATLAS_CELLS
            &&& vertex.v <= ATLAS_CELLS
        }),
{
    let tile = tiles[k / 4];
    assert(grid.width > 0) by (nonlinear_arith)
        requires
            tile.idx < grid.width * grid.height,
    ;
    lemma_multiply_divide_lt(tile.idx as int, grid.width as int, grid.height as int);
}

/// Two writes to one cell leave two entries with one index behind everything
/// that was stored before, the first write first, and the geometry holds a
/// quad for each, that of the second write behind that of the first.
pub proof fn lemma_later_write_drawn_later(
    s: ConsoleState,
    x: int,
    y: int,
    first: (RGB, RGB, u8),
    second: (RGB, RGB, u8),
)
    requires
        s.wf(),
        s.grid.in_bounds(x, y),
    ensures
        ({
            let below = s.grid.tile_at(x, y, first.0, first.1, first.2);
            let above = s.grid.tile_at(x, y, second.0, second.1, second.2);
            let t = s.appended(seq![below]).appended(seq![above]);
            let n = s.tiles.len() as int;
            let width = s.grid.width as int;
            &&& t.wf()
            &&& t.tiles == s.tiles + seq![below, above]
            &&& t.tiles[n] == below
            &&& t.tiles[n + 1] == above
            &&& below.idx == above.idx
            &&& store_vertices(width, t.tiles).len() == 4 * (n + 2)
            &&& forall|corner: int|
                0 <= corner < 4 ==> #[trigger] store_vertices(width, t.tiles)[4 * n + corner]
                    == quad_vertex(width, below, corner)
            &&& forall|corner: int|
                0 <= corner < 4 ==> #[trigger] store_vertices(width, t.tiles)[4 * (n + 1) + corner]
                    == quad_vertex(width, above, corner)
        }),
{
    let below = s.grid.tile_at(x, y, first.0, first.1, first.2);
    let above = s.grid.tile_at(x, y, second.0, second.1, second.2);
    let t = s.appended(seq![below]).appended(seq![above]);
    let n = s.tiles.len() as int;
    s.grid.lemma_cell_index_in_range(x, y);
    assert(t.tiles =~= s.tiles + seq![below, above]);
    lemma_quads_follow_store(s.grid.width as int, t.tiles, n);
    lemma_quads_follow_store(s.grid.width as int, t.tiles, n + 1);
}

/// Building again from an unchanged store gives what was built before: a
/// console that is marked as stale after a rebuild and rebuilt once more is
/// as it was after the first rebuild.
pub proof fn lemma_rebuild_repeats(s: ConsoleState)
    requires
        s.wf(),
    ensures
        s.rebuilt().invalidated().rebuilt() == s.rebuilt(),
{
}

/// The geometry is a function of the grid and the store: consoles that agree
/// in both hold the same buffers after a rebuild, whatever they had cached
/// before. (Nothing is built from an empty store.)
pub proof fn lemma_geometry_depends_on_store_only(a: ConsoleState, b: ConsoleState)
    requires
        a.wf(),
        b.wf(),
        a.grid == b.grid,
        a.tiles == b.tiles,
        a.tiles.len() > 0,
    ensures
        a.rebuilt().vertices == b.rebuilt().vertices,
        a.rebuilt().indices == b.rebuilt().indices,
{
}

/// A text runs along its row: its entries have the indices from that of its
/// first cell on, one by one, and the bytes of the text as their glyphs.
pub proof fn lemma_text_runs_along_row(
    grid: Grid,
    x: int,
    y: int,
    fg: RGB,
    bg: RGB,
    bytes: Seq<u8>,
    i: int,
)
    requires
        grid.cells() <= u32::MAX,
        grid.text_fits(x, y, bytes.len()),
        0 <= i < bytes.len(),
    ensures
        grid.text_tiles(x, y, fg, bg, bytes).len() == bytes.len(),
        grid.cell_index(x, y) + i < grid.cells(),
        grid.text_tiles(x, y, fg, bg, bytes)[i] == (SparseTile {
            idx: (grid.cell_index(x, y) + i) as usize,
            glyph: bytes[i],
            fg,
            bg,
        }),
{
    grid.lemma_cell_index_in_range(x + i, y);
}

/// A box of at least one cell each way stores a blank cell, white on black,
/// for every cell that it covers, its border included; then its four
/// corners; then the cells of its two horizontal edges between the corners;
/// then those of its two vertical edges. The border has the box's colours
/// and no blank cell.
pub proof fn lemma_box_parts(
    grid: Grid,
    sx: int,
    sy: int,
    width: int,
    height: int,
    fg: RGB,
    bg: RGB,
)
    requires
        width >= 1,
        height >= 1,
    ensures
        ({
            let all = grid.box_tiles(sx, sy, width, height, fg, bg);
            let blank = (width + 1) * (height + 1);
            &&& grid.box_interior(sx, sy, width, height).len() == blank
            &&& grid.box_corners(sx, sy, width, height, fg, bg).len() == 4
            &&& grid.box_horizontal_edges(sx, sy, width, height, fg, bg).len() == 2 * (width - 1)
            &&& grid.box_vertical_edges(sx, sy, width, height, fg, bg).len() == 2 * (height - 1)
            &&& all.len() == blank + 4 + 2 * (width - 1) + 2 * (height - 1)
            &&& forall|k: int|
                0 <= k < blank ==> (#[trigger] all[k]).glyph == BLANK && all[k].fg == RGB::white()
                    && all[k].bg == RGB::black()
            &&& forall|k: int|
                blank <= k < all.len() ==> (#[trigger] all[k]).glyph != BLANK && all[k].fg == fg
                    && all[k].bg == bg
        }),
{
    assert(span(width + 1) * span(height + 1) == (width + 1) * (height + 1)) by (nonlinear_arith)
        requires
            span(width + 1) == width + 1,
            span(height + 1) == height + 1,
    ;
    assert(0 <= (width + 1) * (height + 1)) by (nonlinear_arith)
        requires
            width >= 1,
            height >= 1,
    ;
}

/// A horizontal bar is full in its first `fill + 1` cells, as far as it is
/// wide, and empty in the others: a fill below zero leaves it empty, the first
/// cell is full from a fill of zero on, and all of it from `width - 1` on.
pub proof fn lemma_bar_horizontal_cells(
    grid: Grid,
    sx: int,
    sy: int,
    width: int,
    fill: int,
    fg: RGB,
    bg: RGB,
)
    requires
        grid.cells() <= u32::MAX,
        grid.row_fits(sx, sy, width),
    ensures
        ({
            let bar = grid.bar_horizontal_tiles(sx, sy, width, fill, fg, bg);
            &&& bar.len() == span(width)
            &&& forall|i: int|
                0 <= i < bar.len() ==> (#[trigger] bar[i]).idx == grid.cell_index(sx, sy) + i
                    && bar[i].fg == fg && bar[i].bg == bg
            &&& forall|i: int|
                0 <= i < bar.len() && i <= fill ==> (#[trigger] bar[i]).glyph == BAR_FULL
            &&& forall|i: int|
                0 <= i < bar.len() && i > fill ==> (#[trigger] bar[i]).glyph == BAR_EMPTY
        }),
{
    let bar = grid.bar_horizontal_tiles(sx, sy, width, fill, fg, bg);
    assert forall|i: int| 0 <= i < bar.len() implies (#[trigger] bar[i]).idx == grid.cell_index(
        sx,
        sy,
    ) + i by {
        grid.lemma_cell_index_in_range(sx + i, sy);
    }
}

/// A vertical bar, from its upper end downwards, is full in its last `fill`
/// cells, as far as it is high, and empty in those above them: a fill of zero
/// or less leaves it empty, and one of `height` or more fills all of it. Each
/// cell lies one row below the one before it, a whole row of indices lower.
pub proof fn lemma_bar_vertical_cells(
    grid: Grid,
    sx: int,
    sy: int,
    height: int,
    fill: int,
    fg: RGB,
    bg: RGB,
)
    requires
        grid.cells() <= u32::MAX,
        grid.column_fits(sx, sy, height),
    ensures
        ({
            let bar = grid.bar_vertical_tiles(sx, sy, height, fill, fg, bg);
            &&& bar.len() == span(height)
            &&& forall|i: int|
                0 <= i < bar.len() ==> (#[trigger] bar[i]).idx == grid.cell_index(sx, sy) - i
                    * grid.width && bar[i].fg == fg && bar[i].bg == bg
            &&& forall|i: int|
                0 <= i < bar.len() && i >= height - fill ==> (#[trigger] bar[i]).glyph == BAR_FULL
            &&& forall|i: int|
                0 <= i < bar.len() && i < height - fill ==> (#[trigger] bar[i]).glyph == BAR_EMPTY
        }),
{
    let bar = grid.bar_vertical_tiles(sx, sy, height, fill, fg, bg);
    assert forall|i: int| 0 <= i < bar.len() implies (#[trigger] bar[i]).idx == grid.cell_index(
        sx,
        sy,
    ) - i * grid.width by {
        grid.lemma_cell_index_in_range(sx, sy + i);
        assert((grid.height - 1 - (sy + i)) * grid.width == (grid.height - 1 - sy) * grid.width - i
            * grid.width) by (nonlinear_arith);
    }
}

} // verus!
