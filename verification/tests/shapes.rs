use sparse_console::color::RGB;
use sparse_console::console::Console;
use sparse_console::error::ConsoleError;
use sparse_console::glyphs::{
    BAR_EMPTY, BAR_FULL, BLANK, BOX_BOTTOM_LEFT, BOX_BOTTOM_RIGHT, BOX_HORIZONTAL, BOX_TOP_LEFT,
    BOX_TOP_RIGHT, BOX_VERTICAL,
};
use sparse_console::sparse_console::{BufferHandles, SparseConsole, SparseTile};

fn console(width: u32, height: u32) -> Box<SparseConsole> {
    SparseConsole::init(width, height, BufferHandles { vbo: 1, vao: 2, ebo: 3 }).unwrap()
}

fn red() -> RGB {
    RGB::from_bits(1.0f32.to_bits(), 0.0f32.to_bits(), 0.0f32.to_bits())
}

fn blue() -> RGB {
    RGB::from_bits(0.0f32.to_bits(), 0.0f32.to_bits(), 1.0f32.to_bits())
}

fn cell(c: &SparseConsole, x: i32, y: i32) -> usize {
    c.at(x, y).unwrap()
}

fn glyphs(c: &SparseConsole) -> Vec<u8> {
    c.tiles().iter().map(|t| t.glyph).collect()
}

/// The whole cells of `extent` that the share `n / max` comes to, worked out
/// in single precision as the front end does.
fn share(n: i32, max: i32, extent: i32) -> i64 {
    let percent = n as f32 / max as f32;
    ((percent * extent as f32) as i32) as i64
}

#[test]
fn horizontal_bar_fills_up_to_the_boundary_column() {
    let mut c = console(10, 1);
    let fill = share(5, 10, 10);
    assert_eq!(fill, 5);
    assert_eq!(c.draw_bar_horizontal(0, 0, 10, fill, red(), blue()), Ok(()));
    let tiles = c.tiles();
    assert_eq!(tiles.len(), 10);
    for x in 0..10usize {
        let glyph = if x <= 5 { BAR_FULL } else { BAR_EMPTY };
        assert_eq!(tiles[x], SparseTile { idx: x, glyph, fg: red(), bg: blue() });
    }
    assert_eq!(tiles.iter().filter(|t| t.glyph == 178).count(), 6);
    assert_eq!(tiles.iter().filter(|t| t.glyph == 176).count(), 4);
}

#[test]
fn horizontal_bar_of_one_in_forty_one_fills_its_first_cell_only() {
    let mut c = console(41, 1);
    let fill = share(1, 41, 41);
    assert_eq!(fill, 0);
    c.draw_bar_horizontal(0, 0, 41, fill, red(), blue()).unwrap();
    let mut expected = vec![BAR_EMPTY; 41];
    expected[0] = BAR_FULL;
    assert_eq!(glyphs(&c), expected);
}

#[test]
fn horizontal_bar_never_shrinks_as_the_share_grows() {
    let (max, width) = (41, 41);
    let mut before = 0;
    for n in 0..=max {
        let mut c = console(41, 1);
        let fill = share(n, max, width);
        c.draw_bar_horizontal(0, 0, width, fill, red(), blue()).unwrap();
        let cells = glyphs(&c);
        let full = cells.iter().filter(|glyph| **glyph == BAR_FULL).count();
        assert_eq!(full as i64, (fill + 1).min(width as i64));
        assert!(cells[..full].iter().all(|glyph| *glyph == BAR_FULL));
        assert!(cells[full..].iter().all(|glyph| *glyph == BAR_EMPTY));
        assert!(full >= before);
        before = full;
    }
    assert_eq!(before, 41);
}

#[test]
fn horizontal_bar_at_an_offset() {
    let mut c = console(20, 5);
    assert_eq!(c.draw_bar_horizontal(4, 2, 8, 2, red(), blue()), Ok(()));
    let tiles = c.tiles();
    assert_eq!(tiles.len(), 8);
    for i in 0..8 {
        assert_eq!(tiles[i].idx, cell(&c, 4 + i as i32, 2));
        assert_eq!((tiles[i].fg, tiles[i].bg), (red(), blue()));
    }
    assert_eq!(glyphs(&c), vec![178, 178, 178, 176, 176, 176, 176, 176]);
}

#[test]
fn horizontal_bar_with_a_fill_of_zero_still_fills_its_first_cell() {
    let mut c = console(10, 1);
    assert_eq!(share(0, 10, 4), 0);
    c.draw_bar_horizontal(0, 0, 4, 0, red(), blue()).unwrap();
    assert_eq!(glyphs(&c), vec![178, 176, 176, 176]);
}

#[test]
fn horizontal_bar_with_a_fill_below_zero_is_empty() {
    let mut c = console(10, 1);
    assert_eq!(share(-5, 10, 4), -2);
    c.draw_bar_horizontal(0, 0, 4, -2, red(), blue()).unwrap();
    c.draw_bar_horizontal(0, 0, 4, -1, red(), blue()).unwrap();
    assert_eq!(glyphs(&c), vec![176; 8]);
}

#[test]
fn horizontal_bar_is_all_full_from_the_last_offset_on() {
    let mut c = console(10, 1);
    c.draw_bar_horizontal(0, 0, 4, 2, red(), blue()).unwrap();
    assert_eq!(glyphs(&c), vec![178, 178, 178, 176]);
    c.cls();
    assert_eq!(share(10, 10, 4), 4);
    c.draw_bar_horizontal(0, 0, 4, 3, red(), blue()).unwrap();
    c.draw_bar_horizontal(0, 0, 4, 4, red(), blue()).unwrap();
    c.draw_bar_horizontal(0, 0, 4, 10, red(), blue()).unwrap();
    assert_eq!(glyphs(&c), vec![178; 12]);
}

#[test]
fn bar_that_leaves_the_grid_is_out_of_bounds() {
    let mut c = console(10, 10);
    c.rebuild_if_dirty().unwrap();
    assert_eq!(c.draw_bar_horizontal(6, 0, 5, 2, red(), blue()), Err(ConsoleError::OutOfBounds));
    assert_eq!(c.draw_bar_horizontal(-1, 0, 5, 2, red(), blue()), Err(ConsoleError::OutOfBounds));
    assert_eq!(c.draw_bar_horizontal(0, 10, 5, 2, red(), blue()), Err(ConsoleError::OutOfBounds));
    assert_eq!(c.draw_bar_vertical(0, 6, 5, 2, red(), blue()), Err(ConsoleError::OutOfBounds));
    assert_eq!(c.draw_bar_vertical(10, 0, 5, 2, red(), blue()), Err(ConsoleError::OutOfBounds));
    assert_eq!(c.draw_bar_vertical(0, -1, 5, 2, red(), blue()), Err(ConsoleError::OutOfBounds));
    assert!(c.tiles().is_empty());
    assert!(!c.is_dirty());
    assert_eq!(c.draw_bar_horizontal(5, 0, 5, 2, red(), blue()), Ok(()));
    assert_eq!(c.draw_bar_vertical(0, 5, 5, 2, red(), blue()), Ok(()));
    assert_eq!(c.tiles().len(), 10);
}

#[test]
fn bar_without_cells_stores_nothing() {
    let mut c = console(10, 10);
    assert_eq!(c.draw_bar_horizontal(50, 50, 0, 1, red(), blue()), Ok(()));
    assert_eq!(c.draw_bar_horizontal(0, 0, -3, 1, red(), blue()), Ok(()));
    assert_eq!(c.draw_bar_vertical(50, 50, 0, 1, red(), blue()), Ok(()));
    assert_eq!(c.draw_bar_vertical(0, 0, -3, 1, red(), blue()), Ok(()));
    assert!(c.tiles().is_empty());
}

#[test]
fn vertical_bar_fills_from_the_bottom() {
    let mut c = console(5, 12);
    let fill = share(3, 10, 10);
    assert_eq!(fill, 3);
    assert_eq!(c.draw_bar_vertical(2, 1, 10, fill, red(), blue()), Ok(()));
    let tiles = c.tiles();
    assert_eq!(tiles.len(), 10);
    for i in 0..10 {
        let glyph = if i >= 7 { BAR_FULL } else { BAR_EMPTY };
        assert_eq!(
            tiles[i],
            SparseTile { idx: cell(&c, 2, 1 + i as i32), glyph, fg: red(), bg: blue() }
        );
    }
}

#[test]
fn vertical_bar_of_one_in_forty_one_fills_no_row() {
    let mut c = console(1, 41);
    let fill = share(1, 41, 41);
    assert_eq!(fill, 0);
    c.draw_bar_vertical(0, 0, 41, fill, red(), blue()).unwrap();
    assert_eq!(glyphs(&c), vec![BAR_EMPTY; 41]);
}

#[test]
fn vertical_bar_of_nothing_is_empty_and_of_everything_full() {
    let mut c = console(1, 4);
    assert_eq!(share(0, 10, 4), 0);
    c.draw_bar_vertical(0, 0, 4, 0, red(), blue()).unwrap();
    assert_eq!(glyphs(&c), vec![176; 4]);
    c.cls();
    assert_eq!(share(10, 10, 4), 4);
    c.draw_bar_vertical(0, 0, 4, 4, red(), blue()).unwrap();
    assert_eq!(glyphs(&c), vec![178; 4]);
    c.cls();
    c.draw_bar_vertical(0, 0, 4, -5, red(), blue()).unwrap();
    assert_eq!(glyphs(&c), vec![176; 4]);
    c.cls();
    c.draw_bar_vertical(0, 0, 4, 99, red(), blue()).unwrap();
    assert_eq!(glyphs(&c), vec![178; 4]);
    c.cls();
    c.draw_bar_vertical(0, 0, 4, 1, red(), blue()).unwrap();
    assert_eq!(glyphs(&c), vec![176, 176, 176, 178]);
}

#[test]
fn vertical_bar_never_shrinks_as_the_share_grows() {
    let (max, height) = (41, 41);
    let mut before = 0;
    for n in 0..=max {
        let mut c = console(1, 41);
        let fill = share(n, max, height);
        c.draw_bar_vertical(0, 0, height, fill, red(), blue()).unwrap();
        let cells = glyphs(&c);
        let full = cells.iter().filter(|glyph| **glyph == BAR_FULL).count();
        assert_eq!(full as i64, fill.min(height as i64));
        assert!(cells[..41 - full].iter().all(|glyph| *glyph == BAR_EMPTY));
        assert!(cells[41 - full..].iter().all(|glyph| *glyph == BAR_FULL));
        assert!(full >= before);
        before = full;
    }
    assert_eq!(before, 41);
}

#[test]
fn bar_takes_any_fill() {
    let mut c = console(4, 4);
    c.draw_bar_horizontal(0, 0, 4, i64::MIN, red(), blue()).unwrap();
    assert_eq!(glyphs(&c), vec![176; 4]);
    c.cls();
    c.draw_bar_horizontal(0, 0, 4, i64::MAX, red(), blue()).unwrap();
    assert_eq!(glyphs(&c), vec![178; 4]);
    c.cls();
    c.draw_bar_vertical(0, 0, 4, i64::MIN, red(), blue()).unwrap();
    assert_eq!(glyphs(&c), vec![176; 4]);
    c.cls();
    c.draw_bar_vertical(0, 0, 4, i64::MAX, red(), blue()).unwrap();
    assert_eq!(glyphs(&c), vec![178; 4]);
}

#[test]
fn box_stores_the_blank_cells_and_then_the_border() {
    let mut c = console(10, 10);
    assert_eq!(c.draw_box(0, 0, 4, 3, red(), blue()), Ok(()));
    let tiles = c.tiles();
    assert_eq!(tiles.len(), 20 + 4 + 6 + 4);
    for k in 0..20usize {
        let (x, y) = ((k % 5) as i32, (k / 5) as i32);
        assert_eq!(
            tiles[k],
            SparseTile { idx: cell(&c, x, y), glyph: BLANK, fg: RGB::white(), bg: RGB::black() }
        );
    }
    let border = |x: i32, y: i32, glyph: u8| SparseTile {
        idx: cell(&c, x, y),
        glyph,
        fg: red(),
        bg: blue(),
    };
    assert_eq!(tiles[20], border(0, 0, BOX_TOP_LEFT));
    assert_eq!(tiles[21], border(4, 0, BOX_TOP_RIGHT));
    assert_eq!(tiles[22], border(0, 3, BOX_BOTTOM_LEFT));
    assert_eq!(tiles[23], border(4, 3, BOX_BOTTOM_RIGHT));
    assert_eq!(tiles[24], border(1, 0, BOX_HORIZONTAL));
    assert_eq!(tiles[25], border(1, 3, BOX_HORIZONTAL));
    assert_eq!(tiles[26], border(2, 0, BOX_HORIZONTAL));
    assert_eq!(tiles[27], border(2, 3, BOX_HORIZONTAL));
    assert_eq!(tiles[28], border(3, 0, BOX_HORIZONTAL));
    assert_eq!(tiles[29], border(3, 3, BOX_HORIZONTAL));
    assert_eq!(tiles[30], border(0, 1, BOX_VERTICAL));
    assert_eq!(tiles[31], border(4, 1, BOX_VERTICAL));
    assert_eq!(tiles[32], border(0, 2, BOX_VERTICAL));
    assert_eq!(tiles[33], border(4, 2, BOX_VERTICAL));
}

#[test]
fn box_counts_by_glyph() {
    let mut c = console(10, 10);
    c.draw_box(0, 0, 4, 3, red(), blue()).unwrap();
    let count = |glyph: u8| c.tiles().iter().filter(|t| t.glyph == glyph).count();
    assert_eq!(count(218), 1);
    assert_eq!(count(191), 1);
    assert_eq!(count(192), 1);
    assert_eq!(count(217), 1);
    assert_eq!(count(196) + count(179), 2 * (4 - 1) + 2 * (3 - 1));
    assert_eq!(count(196), 6);
    assert_eq!(count(179), 4);
    assert_eq!(count(32), (4 + 1) * (3 + 1));
    let first_border = c.tiles().iter().position(|t| t.glyph != 32).unwrap();
    assert_eq!(first_border, 20);
    assert!(c.tiles()[first_border..].iter().all(|t| t.glyph != 32));
}

#[test]
fn box_border_covers_blank_cells() {
    let mut c = console(10, 10);
    c.draw_box(2, 3, 4, 3, red(), blue()).unwrap();
    let tiles = c.tiles();
    for t in tiles.iter().filter(|t| t.glyph != BLANK) {
        let below = tiles.iter().position(|b| b.idx == t.idx).unwrap();
        assert_eq!(tiles[below].glyph, BLANK);
    }
}

#[test]
fn box_at_an_offset_uses_the_flipped_rows() {
    let mut c = console(10, 10);
    c.draw_box(2, 3, 2, 2, red(), blue()).unwrap();
    let tiles = c.tiles();
    assert_eq!(tiles.len(), 9 + 4 + 2 + 2);
    assert_eq!(tiles[0].idx, (10 - 1 - 3) * 10 + 2);
    assert_eq!(tiles[8].idx, (10 - 1 - 5) * 10 + 4);
    assert_eq!((tiles[9].idx, tiles[9].glyph), ((10 - 1 - 3) * 10 + 2, 218));
    assert_eq!((tiles[12].idx, tiles[12].glyph), ((10 - 1 - 5) * 10 + 4, 217));
}

#[test]
fn box_without_extent_is_four_corners_on_one_blank_cell() {
    let mut c = console(3, 3);
    assert_eq!(c.draw_box(1, 1, 0, 0, red(), blue()), Ok(()));
    assert_eq!(glyphs(&c), vec![32, 218, 191, 192, 217]);
    assert!(c.tiles().iter().all(|t| t.idx == 4));
}

#[test]
fn box_with_a_negative_extent_has_no_interior() {
    let mut c = console(10, 10);
    assert_eq!(c.draw_box(5, 5, -2, 3, red(), blue()), Ok(()));
    let entries: Vec<(usize, u8)> = c.tiles().iter().map(|t| (t.idx, t.glyph)).collect();
    let at = |x: i32, y: i32| cell(&c, x, y);
    assert_eq!(
        entries,
        vec![
            (at(5, 5), 218),
            (at(3, 5), 191),
            (at(5, 8), 192),
            (at(3, 8), 217),
            (at(5, 6), 179),
            (at(3, 6), 179),
            (at(5, 7), 179),
            (at(3, 7), 179),
        ]
    );
}

#[test]
fn box_that_leaves_the_grid_is_out_of_bounds() {
    let mut c = console(10, 10);
    c.rebuild_if_dirty().unwrap();
    assert_eq!(c.draw_box(0, 0, 10, 3, red(), blue()), Err(ConsoleError::OutOfBounds));
    assert_eq!(c.draw_box(0, 0, 3, 10, red(), blue()), Err(ConsoleError::OutOfBounds));
    assert_eq!(c.draw_box(-1, 0, 3, 3, red(), blue()), Err(ConsoleError::OutOfBounds));
    assert_eq!(c.draw_box(0, -1, 3, 3, red(), blue()), Err(ConsoleError::OutOfBounds));
    assert_eq!(c.draw_box(1, 1, -2, 1, red(), blue()), Err(ConsoleError::OutOfBounds));
    assert_eq!(
        c.draw_box(i32::MAX, i32::MAX, i32::MAX, i32::MAX, red(), blue()),
        Err(ConsoleError::OutOfBounds)
    );
    assert!(c.tiles().is_empty());
    assert!(!c.is_dirty());
    assert_eq!(c.draw_box(0, 0, 9, 9, red(), blue()), Ok(()));
    assert_eq!(c.tiles().len(), 100 + 4 + 16 + 16);
}
