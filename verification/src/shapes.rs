use vstd::prelude::*;

use crate::color::RGB;
use crate::glyphs::{
    BAR_EMPTY, BAR_FULL, BLANK, BOX_BOTTOM_LEFT, BOX_BOTTOM_RIGHT, BOX_HORIZONTAL, BOX_TOP_LEFT,
    BOX_TOP_RIGHT, BOX_VERTICAL,
};
use crate::grid::{span, Grid};
use crate::sparse_console::SparseTile;

verus! {

impl Grid {
    /// The entries of a text that starts at `(x, y)`: one per byte, from
    /// left to right.
    pub open spec fn text_tiles(self, x: int, y: int, fg: RGB, bg: RGB, bytes: Seq<u8>) -> Seq<
        SparseTile,
    > {
        Seq::new(bytes.len(), |i: int| self.tile_at(x + i, y, fg, bg, bytes[i]))
    }

    /// Whether a text of `len` bytes that starts at `(x, y)` stays in its row.
    pub open spec fn text_fits(self, x: int, y: int, len: nat) -> bool {
        self.in_bounds(x, y) && x + len <= self.width
    }

    /// The column at which a centered text of `len` bytes starts.
    pub open spec fn centered_column(self, len: nat) -> int {
        self.width / 2 - len / 2
    }

    /// Whether a box with the corners `(sx, sy)` and `(sx + width, sy +
    /// height)` lies on the grid.
    pub open spec fn box_fits(self, sx: int, sy: int, width: int, height: int) -> bool {
        self.in_bounds(sx, sy) && self.in_bounds(sx + width, sy + height)
    }

    /// The blank cells under a box, row after row, its border rows and
    /// columns included. They are white on black whatever the box's colours.
    pub open spec fn box_interior(self, sx: int, sy: int, width: int, height: int) -> Seq<
        SparseTile,
    > {
        Seq::new(
            span(width + 1) * span(height + 1),
            |k: int|
                self.tile_at(
                    sx + k % (width + 1),
                    sy + k / (width + 1),
                    RGB::white(),
                    RGB::black(),
                    BLANK,
                ),
        )
    }

    /// The four corners of a box: upper left, upper right, lower left, lower
    /// right.
    pub open spec fn box_corners(
        self,
        sx: int,
        sy: int,
        width: int,
        height: int,
        fg: RGB,
        bg: RGB,
    ) -> Seq<SparseTile> {
        seq![
            self.tile_at(sx, sy, fg, bg, BOX_TOP_LEFT),
            self.tile_at(sx + width, sy, fg, bg, BOX_TOP_RIGHT),
            self.tile_at(sx, sy + height, fg, bg, BOX_BOTTOM_LEFT),
            self.tile_at(sx + width, sy + height, fg, bg, BOX_BOTTOM_RIGHT),
        ]
    }

    /// The upper and lower edge of a box between its corners, column after
    /// column, the upper cell of a column before the lower one.
    pub open spec fn box_horizontal_edges(
        self,
        sx: int,
        sy: int,
        width: int,
        height: int,
        fg: RGB,
        bg: RGB,
    ) -> Seq<SparseTile> {
        Seq::new(
            2 * span(width - 1),
            |k: int|
                self.tile_at(
                    sx + 1 + k / 2,
                    if k % 2 == 0 {
                        sy
                    } else {
                        sy + height
                    },
                    fg,
                    bg,
                    BOX_HORIZONTAL,
                ),
        )
    }

    /// The left and right edge of a box between its corners, row after row,
    /// the left cell of a row before the right one.
    pub open spec fn box_vertical_edges(
        self,
        sx: int,
        sy: int,
        width: int,
        height: int,
        fg: RGB,
        bg: RGB,
    ) -> Seq<SparseTile> {
        Seq::new(
            2 * span(height - 1),
            |k: int|
                self.tile_at(
                    if k % 2 == 0 {
                        sx
                    } else {
                        sx + width
                    },
                    sy + 1 + k / 2,
                    fg,
                    bg,
                    BOX_VERTICAL,
                ),
        )
    }

    /// Everything that drawing a box stores: the blank cells first, then the
    /// border over them.
    pub open spec fn box_tiles(
        self,
        sx: int,
        sy: int,
        width: int,
        height: int,
        fg: RGB,
        bg: RGB,
    ) -> Seq<SparseTile> {
        self.box_interior(sx, sy, width, height) + self.box_corners(sx, sy, width, height, fg, bg)
            + self.box_horizontal_edges(sx, sy, width, height, fg, bg)
            + self.box_vertical_edges(sx, sy, width, height, fg, bg)
    }

    /// Whether a run of `width` cells to the right of `(sx, sy)` lies on the
    /// grid. An empty run touches no cell.
    pub open spec fn row_fits(self, sx: int, sy: int, width: int) -> bool {
        width > 0 ==> self.in_bounds(sx, sy) && self.in_bounds(sx + width - 1, sy)
    }

    /// Whether a run of `height` cells downwards from `(sx, sy)` lies on the
    /// grid. An empty run touches no cell.
    pub open spec fn column_fits(self, sx: int, sy: int, height: int) -> bool {
        height > 0 ==> self.in_bounds(sx, sy) && self.in_bounds(sx, sy + height - 1)
    }

    /// The cells of a horizontal bar: full up to the column `fill`, that
    /// column included, and empty behind it.
    pub open spec fn bar_horizontal_tiles(
        self,
        sx: int,
        sy: int,
        width: int,
        fill: int,
        fg: RGB,
        bg: RGB,
    ) -> Seq<SparseTile> {
        Seq::new(
            span(width),
            |i: int|
                self.tile_at(
                    sx + i,
                    sy,
                    fg,
                    bg,
                    if i <= fill {
                        BAR_FULL
                    } else {
                        BAR_EMPTY
                    },
                ),
        )
    }

    /// The cells of a vertical bar from its upper end downwards: the lowest
    /// `fill` rows are full, those above them empty.
    pub open spec fn bar_vertical_tiles(
        self,
        sx: int,
        sy: int,
        height: int,
        fill: int,
        fg: RGB,
        bg: RGB,
    ) -> Seq<SparseTile> {
        Seq::new(
            span(height),
            |i: int|
                self.tile_at(
                    sx,
                    sy + i,
                    fg,
                    bg,
                    if i >= height - fill {
                        BAR_FULL
                    } else {
                        BAR_EMPTY
                    },
                ),
        )
    }
}

} // verus!
