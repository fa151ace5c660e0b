use vstd::prelude::*;

use crate::color::RGB;
use crate::error::ConsoleError;
use crate::grid::Grid;
use crate::sparse_console::SparseTile;
use vstd::arithmetic::div_mod::lemma_multiply_divide_lt;

verus! {

/// Glyph cells along each side of the atlas texture.
pub const ATLAS_CELLS: u8 = 16;

/// The most quads that one draw call can hold: six indices each, counted in
/// an `i32`.
pub const MAX_QUADS: usize = 357_913_941;

/// The most quads that the index buffer can name: four vertices each,
/// numbered in an `i32`.
pub const MAX_BUILT_QUADS: usize = 536_870_911;

/// One corner of a cell's quad.
///
/// The numbers that the graphics device gets are fractions of these integers.
/// With `step_x = 2 / width` and `step_y = 2 / height`, the corner lies at
/// `step_x * x - 1`, plus `step_x` where `right` is set, and at
/// `step_y * y - 1`, plus `step_y` where `top` is set. Its texture coordinate
/// is `(u / ATLAS_CELLS, v / ATLAS_CELLS)`.
#[derive(Clone, Copy, Debug, PartialEq, Eq, Structural)]
pub struct Vertex {
    /// Column of the cell.
    pub x: u32,
    /// Row of the cell, counted from the bottom of the screen.
    pub y: u32,
    /// Whether this is a corner on the right edge of the cell.
    pub right: bool,
    /// Whether this is a corner on the upper edge of the cell.
    pub top: bool,
    pub fg: RGB,
    pub bg: RGB,
    /// Horizontal atlas coordinate, in glyph cells from the left.
    pub u: u8,
    /// Vertical atlas coordinate, in glyph cells from the bottom.
    pub v: u8,
}

/// The place of one attribute in a vertex as the shader reads it.
#[derive(Clone, Copy, Debug, PartialEq, Eq, Structural)]
pub struct VertexAttribute {
    /// The location of the attribute in the shader program.
    pub location: u32,
    /// How many numbers the attribute holds.
    pub size: u32,
    /// How many numbers of the vertex stand before the attribute.
    pub offset: u32,
}

/// How many numbers the shader reads per vertex.
pub const VERTEX_SIZE: u32 = 11;

/// The attributes of a vertex in the order in which the shader reads them:
/// position, foreground colour, background colour, texture coordinate.
pub open spec fn vertex_attributes() -> Seq<VertexAttribute> {
    seq![
        VertexAttribute { location: 0, size: 3, offset: 0 },
        VertexAttribute { location: 1, size: 3, offset: 3 },
        VertexAttribute { location: 2, size: 3, offset: 6 },
        VertexAttribute { location: 3, size: 2, offset: 9 },
    ]
}

/// The attributes of a vertex, for the owner of the graphics context to
/// describe to the device.
pub fn vertex_layout() -> (layout: [VertexAttribute; 4])
    ensures
        layout@ == vertex_attributes(),
{
    let layout = [
        VertexAttribute { location: 0, size: 3, offset: 0 },
        VertexAttribute { location: 1, size: 3, offset: 3 },
        VertexAttribute { location: 2, size: 3, offset: 6 },
        VertexAttribute { location: 3, size: 2, offset: 9 },
    ];
    assert(layout@ =~= vertex_attributes());
    layout
}

/// The buffers of one draw call: four vertices and six indices per stored
/// cell, in the order of the store.
pub struct Geometry {
    pub vertices: Vec<Vertex>,
    pub indices: Vec<i32>,
}

/// Whether a corner lies on the right edge of its quad. Corners are numbered
/// in the order in which a quad emits them: upper right, lower right, lower
/// left, upper left.
pub open spec fn corner_is_right(corner: int) -> bool {
    corner == 0 || corner == 1
}

/// Whether a corner lies on the upper edge of its quad.
pub open spec fn corner_is_top(corner: int) -> bool {
    corner == 0 || corner == 3
}

/// Atlas column of a glyph's left edge.
pub open spec fn glyph_left(glyph: u8) -> int {
    glyph as int % ATLAS_CELLS as int
}

/// Atlas row of a glyph's upper edge, counted from the bottom: the atlas
/// stores glyph 0 in its topmost row.
pub open spec fn glyph_top(glyph: u8) -> int {
    ATLAS_CELLS as int - glyph as int / ATLAS_CELLS as int
}

/// The vertex that a stored cell contributes at one corner of its quad.
pub open spec fn quad_vertex(width: int, tile: SparseTile, corner: int) -> Vertex {
    Vertex {
        x: (tile.idx as int % width) as u32,
        y: (tile.idx as int / width) as u32,
        right: corner_is_right(corner),
        top: corner_is_top(corner),
        fg: tile.fg,
        bg: tile.bg,
        u: (if corner_is_right(corner) {
            glyph_left(tile.glyph) + 1
        } else {
            glyph_left(tile.glyph)
        }) as u8,
        v: (if corner_is_top(corner) {
            glyph_top(tile.glyph)
        } else {
            glyph_top(tile.glyph) - 1
        }) as u8,
    }
}

/// The corner that each of a quad's six indices names: two triangles that
/// share the edge between the lower right and the upper left corner.
pub open spec fn triangle_corner(position: int) -> int {
    if position == 0 {
        0
    } else if position == 1 {
        1
    } else if position == 2 {
        3
    } else if position == 3 {
        1
    } else if position == 4 {
        2
    } else {
        3
    }
}

/// The vertex buffer of a store: the four corners of each cell's quad, cell
/// after cell.
pub open spec fn store_vertices(width: int, tiles: Seq<SparseTile>) -> Seq<Vertex> {
    Seq::new(4 * tiles.len(), |k: int| quad_vertex(width, tiles[k / 4], k % 4))
}

/// The index buffer of a store of `count` cells.
pub open spec fn store_indices(count: nat) -> Seq<i32> {
    Seq::new(6 * count, |k: int| (4 * (k / 6) + triangle_corner(k % 6)) as i32)
}

/// The number of indices that a draw call of `count` quads asks for: six for
/// each quad. More than `MAX_QUADS` quads are refused with
/// `GraphicsResourceError`.
pub fn index_count(count: usize) -> (r: Result<i32, ConsoleError>)
    ensures
        count <= MAX_QUADS ==> r == Ok::<i32, ConsoleError>((6 * count) as i32),
        count > MAX_QUADS ==> r == Err::<i32, ConsoleError>(ConsoleError::GraphicsResourceError),
{
    if count <= MAX_QUADS {
        Ok((count * 6) as i32)
    } else {
        Err(ConsoleError::GraphicsResourceError)
    }
}

/// Appends one corner of a quad to a vertex buffer.
fn push_point(
    vertex_buffer: &mut Vec<Vertex>,
    x: u32,
    y: u32,
    right: bool,
    top: bool,
    fg: RGB,
    bg: RGB,
    u: u8,
    v: u8,
)
    ensures
        final(vertex_buffer)@ == old(vertex_buffer)@.push(
            (Vertex { x, y, right, top, fg, bg, u, v }),
        ),
{
    vertex_buffer.push(Vertex { x, y, right, top, fg, bg, u, v });
}

/// Builds the vertex and index buffers of a store.
///
/// A store of more than `MAX_BUILT_QUADS` cells is refused with
/// `GraphicsResourceError`; otherwise one with a cell off the grid is refused
/// with `OutOfBounds`. Every other store gives the buffers that
/// `store_vertices` and `store_indices` describe, and those depend on nothing
/// but the width and the store.
pub fn build_geometry(width: u32, height: u32, tiles: &Vec<SparseTile>) -> (r: Result<
    Geometry,
    ConsoleError,
>)
    ensures
        r is Ok <==> tiles@.len() <= MAX_BUILT_QUADS && (Grid {
            width: width as nat,
            height: height as nat,
        }).holds(tiles@),
        r matches Ok(g) ==> g.vertices@ == store_vertices(width as int, tiles@) && g.indices@
            == store_indices(tiles@.len()),
        r matches Err(e) ==> e == (if tiles@.len() > MAX_BUILT_QUADS {
            ConsoleError::GraphicsResourceError
        } else {
            ConsoleError::OutOfBounds
        }),
{
    if tiles.len() > MAX_BUILT_QUADS {
        return Err(ConsoleError::GraphicsResourceError);
    }
    assert(width as int * height as int <= 0xFFFF_FFFF * 0xFFFF_FFFF) by (nonlinear_arith)
        requires
            0 <= width as int <= 0xFFFF_FFFF,
            0 <= height as int <= 0xFFFF_FFFF,
    ;
    let cells: u64 = width as u64 * height as u64;
    let ghost grid = Grid { width: width as nat, height: height as nat };
    let mut vertex_buffer: Vec<Vertex> = Vec::new();
    let mut index_buffer: Vec<i32> = Vec::new();
    let mut index_count: i32 = 0;
    let mut i: usize = 0;
    while i < tiles.len()
        invariant
            0 <= i <= tiles@.len() <= MAX_BUILT_QUADS,
            cells == width as int * height as int,
            index_count == 4 * i,
            grid == (Grid { width: width as nat, height: height as nat }),
            grid.holds(tiles@.take(i as int)),
            vertex_buffer@ == store_vertices(width as int, tiles@.take(i as int)),
            index_buffer@ == store_indices(i as nat),
        decreases tiles@.len() - i,
    {
        let t = tiles[i];
        if t.idx as u64 >= cells {
            return Err(ConsoleError::OutOfBounds);
        }
        proof {
            assert(width > 0) by (nonlinear_arith)
                requires
                    (t.idx as int) < width as int * height as int,
            ;
            lemma_multiply_divide_lt(t.idx as int, width as int, height as int);
        }
        let x: u32 = (t.idx % width as usize) as u32;
        let y: u32 = (t.idx / width as usize) as u32;
        let glyph_x: u8 = t.glyph % ATLAS_CELLS;
        let glyph_y: u8 = ATLAS_CELLS - t.glyph / ATLAS_CELLS;

        push_point(&mut vertex_buffer, x, y, true, true, t.fg, t.bg, glyph_x + 1, glyph_y);
        push_point(&mut vertex_buffer, x, y, true, false, t.fg, t.bg, glyph_x + 1, glyph_y - 1);
        push_point(&mut vertex_buffer, x, y, false, false, t.fg, t.bg, glyph_x, glyph_y - 1);
        push_point(&mut vertex_buffer, x, y, false, true, t.fg, t.bg, glyph_x, glyph_y);

        index_buffer.push(0 + index_count);
        index_buffer.push(1 + index_count);
        index_buffer.push(3 + index_count);
        index_buffer.push(1 + index_count);
        index_buffer.push(2 + index_count);
        index_buffer.push(3 + index_count);

        index_count += 4;
        i += 1;
        proof {
            let before = tiles@.take(i - 1);
            let now = tiles@.take(i as int);
            assert(now =~= before.push(t));
            assert(vertex_buffer@ =~= store_vertices(width as int, now));
            assert(index_buffer@ =~= store_indices(i as nat));
        }
    }
    proof {
        assert(tiles@.take(i as int) =~= tiles@);
    }
    Ok(Geometry { vertices: vertex_buffer, indices: index_buffer })
}

} // verus!
