use sparse_console::color::RGB;
use sparse_console::console::Console;
use sparse_console::error::ConsoleError;
use sparse_console::sparse_console::{BufferHandles, SparseConsole, SparseTile};

fn console(width: u32, height: u32) -> Box<SparseConsole> {
    SparseConsole::init(width, height, BufferHandles { vbo: 1, vao: 2, ebo: 3 }).unwrap()
}

fn red() -> RGB {
    RGB::from_bits(1.0f32.to_bits(), 0.0f32.to_bits(), 0.0f32.to_bits())
}

fn blue() -> RGB {
    RGB::from_bits(0.0f32.to_bits(), 0.0f32.to_bits(), 1.0f32.to_bits())
}

#[test]
fn print_ab_stores_two_white_on_black_entries() {
    let mut c = console(10, 1);
    assert_eq!(c.print(0, 0, "AB"), Ok(()));
    assert_eq!(
        c.tiles().as_slice(),
        &[
            SparseTile { idx: 0, glyph: b'A', fg: RGB::white(), bg: RGB::black() },
            SparseTile { idx: 1, glyph: b'B', fg: RGB::white(), bg: RGB::black() },
        ]
    );
}

#[test]
fn print_counts_indices_from_the_flipped_row() {
    let mut c = console(80, 25);
    assert_eq!(c.print(3, 2, "Hi!"), Ok(()));
    let base = (25 - 1 - 2) * 80 + 3;
    let tiles = c.tiles();
    assert_eq!(tiles.len(), 3);
    assert_eq!((tiles[0].idx, tiles[0].glyph), (base, b'H'));
    assert_eq!((tiles[1].idx, tiles[1].glyph), (base + 1, b'i'));
    assert_eq!((tiles[2].idx, tiles[2].glyph), (base + 2, b'!'));
}

#[test]
fn print_color_keeps_the_colours() {
    let mut c = console(10, 2);
    assert_eq!(c.print_color(1, 1, red(), blue(), "x"), Ok(()));
    assert_eq!(
        c.tiles().as_slice(),
        &[SparseTile { idx: 1, glyph: b'x', fg: red(), bg: blue() }]
    );
}

#[test]
fn print_stores_one_entry_per_byte_of_the_text() {
    let mut c = console(10, 1);
    assert_eq!(c.print(0, 0, "\u{e9}"), Ok(()));
    let glyphs: Vec<u8> = c.tiles().iter().map(|t| t.glyph).collect();
    assert_eq!(glyphs, vec![0xC3, 0xA9]);
}

#[test]
fn print_appends_behind_what_is_stored() {
    let mut c = console(10, 1);
    c.print(0, 0, "ab").unwrap();
    c.print(0, 0, "cd").unwrap();
    let entries: Vec<(usize, u8)> = c.tiles().iter().map(|t| (t.idx, t.glyph)).collect();
    assert_eq!(entries, vec![(0, b'a'), (1, b'b'), (0, b'c'), (1, b'd')]);
}

#[test]
fn print_fills_a_row_to_its_end() {
    let mut c = console(4, 2);
    assert_eq!(c.print(0, 1, "abcd"), Ok(()));
    assert_eq!(c.print(3, 0, "z"), Ok(()));
    assert_eq!(c.tiles().len(), 5);
    assert_eq!(c.tiles()[4].idx, 7);
}

#[test]
fn print_refuses_a_text_that_leaves_its_row() {
    let mut c = console(4, 2);
    assert_eq!(c.print(0, 0, "abcde"), Err(ConsoleError::OutOfBounds));
    assert_eq!(c.print(3, 0, "ab"), Err(ConsoleError::OutOfBounds));
    assert_eq!(c.print(4, 0, ""), Err(ConsoleError::OutOfBounds));
    assert_eq!(c.print(-1, 0, "a"), Err(ConsoleError::OutOfBounds));
    assert_eq!(c.print(0, 2, "a"), Err(ConsoleError::OutOfBounds));
    assert!(c.tiles().is_empty());
}

#[test]
fn a_refused_print_leaves_the_console_clean() {
    let mut c = console(4, 2);
    c.rebuild_if_dirty().unwrap();
    assert_eq!(c.print(3, 0, "ab"), Err(ConsoleError::OutOfBounds));
    assert!(!c.is_dirty());
}

#[test]
fn an_empty_text_stores_nothing_and_marks_dirty() {
    let mut c = console(4, 2);
    c.rebuild_if_dirty().unwrap();
    assert_eq!(c.print(0, 0, ""), Ok(()));
    assert!(c.tiles().is_empty());
    assert!(c.is_dirty());
}

#[test]
fn print_centered_starts_at_half_width_less_half_length() {
    let mut c = console(80, 25);
    assert_eq!(c.print_centered(4, "hello"), Ok(()));
    let base = (25 - 1 - 4) * 80 + (40 - 2);
    let entries: Vec<(usize, u8)> = c.tiles().iter().map(|t| (t.idx, t.glyph)).collect();
    assert_eq!(
        entries,
        vec![(base, b'h'), (base + 1, b'e'), (base + 2, b'l'), (base + 3, b'l'), (base + 4, b'o')]
    );
    assert_eq!(c.tiles()[0].fg, RGB::white());
    assert_eq!(c.tiles()[0].bg, RGB::black());
}

#[test]
fn print_centered_rounds_both_halves_down() {
    let mut c = console(7, 1);
    assert_eq!(c.print_centered(0, "abcd"), Ok(()));
    assert_eq!(c.tiles()[0].idx, 1);
    c.cls();
    assert_eq!(c.print_centered(0, "abcde"), Ok(()));
    assert_eq!(c.tiles()[0].idx, 1);
    c.cls();
    assert_eq!(c.print_centered(0, "abcdefg"), Ok(()));
    assert_eq!(c.tiles()[0].idx, 0);
}

#[test]
fn print_centered_refuses_a_text_wider_than_the_grid() {
    let mut c = console(4, 1);
    assert_eq!(c.print_centered(0, "abcde"), Err(ConsoleError::OutOfBounds));
    assert_eq!(c.print_centered(0, "abcdefgh"), Err(ConsoleError::OutOfBounds));
    assert_eq!(c.print_centered(1, "ab"), Err(ConsoleError::OutOfBounds));
    assert!(c.tiles().is_empty());
}

#[test]
fn print_color_centered_keeps_the_colours() {
    let mut c = console(10, 1);
    assert_eq!(c.print_color_centered(0, red(), blue(), "ab"), Ok(()));
    assert_eq!(
        c.tiles().as_slice(),
        &[
            SparseTile { idx: 4, glyph: b'a', fg: red(), bg: blue() },
            SparseTile { idx: 5, glyph: b'b', fg: red(), bg: blue() },
        ]
    );
}

#[test]
fn set_twice_keeps_both_entries_in_order() {
    let mut c = console(10, 10);
    assert_eq!(c.set(3, 4, red(), blue(), b'a'), Ok(()));
    assert_eq!(c.set(3, 4, blue(), red(), b'b'), Ok(()));
    let idx = (10 - 1 - 4) * 10 + 3;
    assert_eq!(
        c.tiles().as_slice(),
        &[
            SparseTile { idx, glyph: b'a', fg: red(), bg: blue() },
            SparseTile { idx, glyph: b'b', fg: blue(), bg: red() },
        ]
    );
}

#[test]
fn set_refuses_cells_off_the_grid() {
    let mut c = console(10, 10);
    assert_eq!(c.set(10, 0, red(), blue(), 1), Err(ConsoleError::OutOfBounds));
    assert_eq!(c.set(0, 10, red(), blue(), 1), Err(ConsoleError::OutOfBounds));
    assert_eq!(c.set(-1, 0, red(), blue(), 1), Err(ConsoleError::OutOfBounds));
    assert_eq!(c.set(0, -1, red(), blue(), 1), Err(ConsoleError::OutOfBounds));
    assert!(c.tiles().is_empty());
}

#[test]
fn set_bg_changes_the_topmost_entry_only() {
    let mut c = console(10, 10);
    c.set(1, 1, red(), RGB::black(), b'a').unwrap();
    c.set(2, 2, red(), RGB::black(), b'b').unwrap();
    c.set(1, 1, red(), RGB::black(), b'c').unwrap();
    c.set(3, 3, red(), RGB::black(), b'd').unwrap();
    assert_eq!(c.set_bg(1, 1, blue()), Ok(()));
    let tiles = c.tiles();
    assert_eq!(tiles.len(), 4);
    assert_eq!((tiles[0].glyph, tiles[0].bg), (b'a', RGB::black()));
    assert_eq!((tiles[1].glyph, tiles[1].bg), (b'b', RGB::black()));
    assert_eq!((tiles[2].glyph, tiles[2].bg), (b'c', blue()));
    assert_eq!((tiles[3].glyph, tiles[3].bg), (b'd', RGB::black()));
    assert_eq!(tiles[2].fg, red());
    assert_eq!(tiles[2].idx, 81);
}

#[test]
fn set_bg_finds_a_cell_that_is_not_at_its_index_in_the_store() {
    let mut c = console(10, 10);
    c.set(9, 0, red(), RGB::black(), b'z').unwrap();
    assert_eq!(c.tiles()[0].idx, 99);
    assert_eq!(c.set_bg(9, 0, blue()), Ok(()));
    assert_eq!(c.tiles()[0].bg, blue());
    assert_eq!(c.tiles().len(), 1);
}

#[test]
fn set_bg_without_an_entry_is_cell_not_found() {
    let mut c = console(10, 10);
    assert_eq!(c.set_bg(0, 0, blue()), Err(ConsoleError::CellNotFound));
    c.set(1, 1, red(), RGB::black(), b'a').unwrap();
    assert_eq!(c.set_bg(0, 9, blue()), Err(ConsoleError::CellNotFound));
    assert_eq!(c.set_bg(1, 2, blue()), Err(ConsoleError::CellNotFound));
    assert_eq!(c.tiles()[0].bg, RGB::black());
}

#[test]
fn set_bg_off_the_grid_is_out_of_bounds() {
    let mut c = console(10, 10);
    c.set(1, 1, red(), RGB::black(), b'a').unwrap();
    assert_eq!(c.set_bg(10, 1, blue()), Err(ConsoleError::OutOfBounds));
    assert_eq!(c.set_bg(1, -1, blue()), Err(ConsoleError::OutOfBounds));
}

#[test]
fn set_bg_marks_dirty_only_when_it_changes_a_cell() {
    let mut c = console(10, 10);
    c.set(1, 1, red(), RGB::black(), b'a').unwrap();
    c.rebuild_if_dirty().unwrap();
    assert_eq!(c.set_bg(2, 2, blue()), Err(ConsoleError::CellNotFound));
    assert!(!c.is_dirty());
    assert_eq!(c.set_bg(1, 1, blue()), Ok(()));
    assert!(c.is_dirty());
}

#[test]
fn cls_empties_the_store() {
    let mut c = console(10, 10);
    c.print(0, 0, "hello").unwrap();
    c.cls();
    assert!(c.tiles().is_empty());
    assert!(c.is_dirty());
}

#[test]
fn cls_bg_ignores_the_colour() {
    let mut c = console(10, 10);
    c.print(0, 0, "hello").unwrap();
    c.cls_bg(red());
    assert!(c.tiles().is_empty());
    assert!(c.is_dirty());
    c.set(0, 0, RGB::white(), RGB::black(), b'a').unwrap();
    assert_eq!(c.tiles()[0].bg, RGB::black());
}

#[test]
fn a_tile_is_a_glyph_in_two_colours() {
    let tile = sparse_console::console::Tile { glyph: b'@', fg: red(), bg: blue() };
    let copy = tile;
    assert_eq!(tile, copy);
    assert_eq!((copy.glyph, copy.fg, copy.bg), (64, red(), blue()));
}
