use vstd::prelude::*;

use crate::color::RGB;
use crate::console::Console;
use crate::glyphs::{BLANK, BOX_HORIZONTAL, BOX_VERTICAL};
use crate::grid::span;
use crate::model::lemma_appended_next;
use crate::sparse_console::SparseConsole;

verus! {

impl SparseConsole {
    /// Appends the blank cells under a box, row after row.
    pub(crate) fn fill_box(&mut self, sx: i64, sy: i64, w: i64, h: i64)
        requires
            old(self).wf(),
            old(self)@.grid.box_fits(sx as int, sy as int, w as int, h as int),
            -0x8000_0000 <= sx <= 0x7FFF_FFFF,
            -0x8000_0000 <= sy <= 0x7FFF_FFFF,
            -0x8000_0000 <= w <= 0x7FFF_FFFF,
            -0x8000_0000 <= h <= 0x7FFF_FFFF,
        ensures
            final(self).wf(),
            final(self)@ == old(self)@.appended(
                old(self)@.grid.box_interior(sx as int, sy as int, w as int, h as int),
            ),
    {
        let ghost start = self@;
        let ghost run = start.grid.box_interior(sx as int, sy as int, w as int, h as int);
        self.mark_dirty();
        assert(self@ == start.appended(run.take(0))) by {
            assert(start.tiles + run.take(0) =~= start.tiles);
        }
        if w < 0 || h < 0 {
            assert(run.len() == 0) by (nonlinear_arith)
                requires
                    run.len() == span(w + 1) * span(h + 1),
                    w < 0 || h < 0,
            ;
            assert(run.take(0) =~= run);
            return ;
        }
        let ghost cols = w + 1;
        let mut row: i64 = 0;
        while row <= h
            invariant
                0 <= row <= h + 1,
                0 <= w <= 0x7FFF_FFFF,
                0 <= h <= 0x7FFF_FFFF,
                -0x8000_0000 <= sx <= 0x7FFF_FFFF,
                -0x8000_0000 <= sy <= 0x7FFF_FFFF,
                cols == w + 1,
                start.wf(),
                start.grid.box_fits(sx as int, sy as int, w as int, h as int),
                run == start.grid.box_interior(sx as int, sy as int, w as int, h as int),
                self.wf(),
                self@ == start.appended(run.take(row * cols)),
            decreases h + 1 - row,
        {
            let mut col: i64 = 0;
            while col <= w
                invariant
                    0 <= col <= w + 1,
                    0 <= row <= h,
                    0 <= w <= 0x7FFF_FFFF,
                    0 <= h <= 0x7FFF_FFFF,
                    -0x8000_0000 <= sx <= 0x7FFF_FFFF,
                    -0x8000_0000 <= sy <= 0x7FFF_FFFF,
                    cols == w + 1,
                    start.wf(),
                    start.grid.box_fits(sx as int, sy as int, w as int, h as int),
                    run == start.grid.box_interior(sx as int, sy as int, w as int, h as int),
                    self.wf(),
                    self@ == start.appended(run.take(row * cols + col)),
                decreases w + 1 - col,
            {
                proof {
                    lemma_row_major(row as int, col as int, cols, h + 1);
                }
                self.push_cell(sx + col, sy + row, RGB::white(), RGB::black(), BLANK);
                proof {
                    lemma_appended_next(start, run, row * cols + col);
                }
                col += 1;
            }
            proof {
                assert(row * cols + cols == (row + 1) * cols) by (nonlinear_arith);
            }
            row += 1;
        }
        proof {
            assert(run.len() == (h + 1) * cols) by (nonlinear_arith)
                requires
                    run.len() == span(w + 1) * span(h + 1),
                    w >= 0,
                    h >= 0,
                    cols == w + 1,
            ;
            assert(run.take(row * cols) =~= run);
        }
    }

    /// Appends the upper and lower edge of a box between its corners.
    pub(crate) fn draw_box_rows(&mut self, sx: i64, sy: i64, w: i64, h: i64, fg: RGB, bg: RGB)
        requires
            old(self).wf(),
            old(self)@.grid.box_fits(sx as int, sy as int, w as int, h as int),
            -0x8000_0000 <= sx <= 0x7FFF_FFFF,
            -0x8000_0000 <= sy <= 0x7FFF_FFFF,
            -0x8000_0000 <= w <= 0x7FFF_FFFF,
            -0x8000_0000 <= h <= 0x7FFF_FFFF,
        ensures
            final(self).wf(),
            final(self)@ == old(self)@.appended(
                old(self)@.grid.box_horizontal_edges(
                    sx as int,
                    sy as int,
                    w as int,
                    h as int,
                    fg,
                    bg,
                ),
            ),
    {
        let ghost start = self@;
        let ghost run = start.grid.box_horizontal_edges(
            sx as int,
            sy as int,
            w as int,
            h as int,
            fg,
            bg,
        );
        self.mark_dirty();
        assert(self@ == start.appended(run.take(0))) by {
            assert(start.tiles + run.take(0) =~= start.tiles);
        }
        let mut i: i64 = 1;
        while i < w
            invariant
                1 <= i,
                w > 1 ==> i <= w,
                w <= 1 ==> i == 1,
                w <= 0x7FFF_FFFF,
                -0x8000_0000 <= sx <= 0x7FFF_FFFF,
                -0x8000_0000 <= sy <= 0x7FFF_FFFF,
                -0x8000_0000 <= h <= 0x7FFF_FFFF,
                start.wf(),
                start.grid.box_fits(sx as int, sy as int, w as int, h as int),
                run == start.grid.box_horizontal_edges(
                    sx as int,
                    sy as int,
                    w as int,
                    h as int,
                    fg,
                    bg,
                ),
                self.wf(),
                self@ == start.appended(run.take(2 * (i - 1))),
            decreases w - i,
        {
            self.push_cell(sx + i, sy, fg, bg, BOX_HORIZONTAL);
            proof {
                lemma_appended_next(start, run, 2 * (i - 1));
            }
            self.push_cell(sx + i, sy + h, fg, bg, BOX_HORIZONTAL);
            proof {
                lemma_appended_next(start, run, 2 * (i - 1) + 1);
            }
            i += 1;
        }
        assert(run.take(2 * (i - 1)) =~= run);
    }

    /// Appends the left and right edge of a box between its corners.
    pub(crate) fn draw_box_columns(&mut self, sx: i64, sy: i64, w: i64, h: i64, fg: RGB, bg: RGB)
        requires
            old(self).wf(),
            old(self)@.grid.box_fits(sx as int, sy as int, w as int, h as int),
            -0x8000_0000 <= sx <= 0x7FFF_FFFF,
            -0x8000_0000 <= sy <= 0x7FFF_FFFF,
            -0x8000_0000 <= w <= 0x7FFF_FFFF,
            -0x8000_0000 <= h <= 0x7FFF_FFFF,
        ensures
            final(self).wf(),
            final(self)@ == old(self)@.appended(
                old(self)@.grid.box_vertical_edges(
                    sx as int,
                    sy as int,
                    w as int,
                    h as int,
                    fg,
                    bg,
                ),
            ),
    {
        let ghost start = self@;
        let ghost run = start.grid.box_vertical_edges(
            sx as int,
            sy as int,
            w as int,
            h as int,
            fg,
            bg,
        );
        self.mark_dirty();
        assert(self@ == start.appended(run.take(0))) by {
            assert(start.tiles + run.take(0) =~= start.tiles);
        }
        let mut i: i64 = 1;
        while i < h
            invariant
                1 <= i,
                h > 1 ==> i <= h,
                h <= 1 ==> i == 1,
                h <= 0x7FFF_FFFF,
                -0x8000_0000 <= sx <= 0x7FFF_FFFF,
                -0x8000_0000 <= sy <= 0x7FFF_FFFF,
                -0x8000_0000 <= w <= 0x7FFF_FFFF,
                start.wf(),
                start.grid.box_fits(sx as int, sy as int, w as int, h as int),
                run == start.grid.box_vertical_edges(
                    sx as int,
                    sy as int,
                    w as int,
                    h as int,
                    fg,
                    bg,
                ),
                self.wf(),
                self@ == start.appended(run.take(2 * (i - 1))),
            decreases h - i,
        {
            self.push_cell(sx, sy + i, fg, bg, BOX_VERTICAL);
            proof {
                lemma_appended_next(start, run, 2 * (i - 1));
            }
            self.push_cell(sx + w, sy + i, fg, bg, BOX_VERTICAL);
            proof {
                lemma_appended_next(start, run, 2 * (i - 1) + 1);
            }
            i += 1;
        }
        assert(run.take(2 * (i - 1)) =~= run);
    }
}

/// In a block of rows of `cols` cells each, the cell at `col` of the row
/// `row` has the position `row * cols + col`, and that position gives back
/// the row and the column.
proof fn lemma_row_major(row: int, col: int, cols: int, rows: int)
    requires
        0 <= row < rows,
        0 <= col < cols,
    ensures
        0 <= row * cols + col < cols * rows,
        (row * cols + col) % cols == col,
        (row * cols + col) / cols == row,
{
    assert(0 <= row * cols && row * cols + cols <= cols * rows) by (nonlinear_arith)
        requires
            0 <= row < rows,
            0 < cols,
    ;
    vstd::arithmetic::div_mod::lemma_fundamental_div_mod_converse(
        row * cols + col,
        cols,
        row,
        col,
    );
}

} // verus!
