use vstd::prelude::*;

use crate::color::RGB;
use crate::sparse_console::SparseTile;

verus! {

/// The addressable space of a console: `width` columns and `height` rows.
pub struct Grid {
    pub width: nat,
    pub height: nat,
}

impl Grid {
    /// The number of cells.
    pub open spec fn cells(self) -> nat {
        self.width * self.height
    }

    /// Whether the cell `(x, y)` lies on the grid.
    pub open spec fn in_bounds(self, x: int, y: int) -> bool {
        0 <= x < self.width && 0 <= y < self.height
    }

    /// The logical index of the cell `(x, y)`. Rows are numbered downwards on
    /// screen, indices upwards, so the last row comes first.
    pub open spec fn cell_index(self, x: int, y: int) -> int {
        (self.height - 1 - y) * self.width + x
    }

    /// The entry that a write to the cell `(x, y)` stores.
    pub open spec fn tile_at(self, x: int, y: int, fg: RGB, bg: RGB, glyph: u8) -> SparseTile {
        SparseTile { idx: self.cell_index(x, y) as usize, glyph, fg, bg }
    }

    /// Whether every one of the entries lies on the grid.
    pub open spec fn holds(self, tiles: Seq<SparseTile>) -> bool {
        forall|i: int| 0 <= i < tiles.len() ==> (#[trigger] tiles[i]).idx < self.cells()
    }

    /// The cells of a grid have the indices from zero up to the number of
    /// cells.
    pub proof fn lemma_cell_index_in_range(self, x: int, y: int)
        requires
            self.in_bounds(x, y),
        ensures
            0 <= (self.height - 1 - y) * self.width <= self.cell_index(x, y) < self.cells(),
    {
        let (w, h) = (self.width as int, self.height as int);
        assert(0 <= (h - 1 - y) * w && (h - 1 - y) * w + w <= w * h) by (nonlinear_arith)
            requires
                0 <= y < h,
                0 < w,
        ;
    }

    /// The index names the cell: its column is the remainder by the width,
    /// its row from the bottom the quotient.
    pub proof fn lemma_cell_index_splits(self, x: int, y: int)
        requires
            self.in_bounds(x, y),
        ensures
            self.cell_index(x, y) % (self.width as int) == x,
            self.cell_index(x, y) / (self.width as int) == self.height - 1 - y,
    {
        vstd::arithmetic::div_mod::lemma_fundamental_div_mod_converse(
            self.cell_index(x, y),
            self.width as int,
            self.height - 1 - y,
            x,
        );
    }

    /// Two cells of a grid with the same index are the same cell.
    pub proof fn lemma_cell_index_injective(self, x1: int, y1: int, x2: int, y2: int)
        requires
            self.in_bounds(x1, y1),
            self.in_bounds(x2, y2),
            self.cell_index(x1, y1) == self.cell_index(x2, y2),
        ensures
            x1 == x2,
            y1 == y2,
    {
        self.lemma_cell_index_splits(x1, y1);
        self.lemma_cell_index_splits(x2, y2);
    }
}

/// The length of a run of `n` cells: nothing where `n` is negative.
pub open spec fn span(n: int) -> nat {
    if n > 0 {
        n as nat
    } else {
        0
    }
}

} // verus!
