use vga_text::buffer::{Buffer, COLS, ROWS};
use vga_text::character::{Character, Color, ColorCode};
use vga_text::writer::{Writer, BLANK_GLYPH, FALLBACK_GLYPH};

fn fresh() -> Writer {
    Writer::new(ColorCode::new(Color::White, Color::Black))
}

#[test]
fn color_code_packs_background_high() {
    assert_eq!(ColorCode::new(Color::White, Color::Black).value(), 0x0f);
    assert_eq!(ColorCode::new(Color::Yellow, Color::Blue).value(), 0x1e);
    assert_eq!(ColorCode::new(Color::Black, Color::White).value(), 0xf0);
    assert_eq!(ColorCode::new(Color::LightCyan, Color::Black).value(), 0x0b);
}

#[test]
fn color_indices_follow_palette() {
    assert_eq!(Color::Black.index(), 0);
    assert_eq!(Color::LightGray.index(), 7);
    assert_eq!(Color::Pink.index(), 13);
    assert_eq!(Color::White.index(), 15);
}

#[test]
fn buffer_dimensions() {
    let b = Buffer::new(Character { char: b' ', color: ColorCode(0x0f) });
    assert_eq!(b.rows(), 25);
    assert_eq!(b.cols(), 80);
    assert_eq!(b.chars.len(), ROWS * COLS);
}

#[test]
fn hardware_layout_is_glyph_then_attribute() {
    let mut w = fresh();
    w.write_str("Hi");
    let bytes = w.to_bytes();
    assert_eq!(bytes.len(), 4000);
    assert_eq!(&bytes[0..6], &[b'H', 0x0f, b'i', 0x0f, b' ', 0x0f]);
}

#[test]
fn printable_byte_lands_at_cursor() {
    let mut w = fresh();
    w.write_str("ab");
    w.write_ascii_char(b'~');
    assert_eq!(w.cell(0, 2), Character { char: b'~', color: ColorCode(0x0f) });
    assert_eq!((w.cursor_row(), w.cursor_col()), (0, 3));
}

#[test]
fn unprintable_bytes_show_fallback() {
    let mut w = fresh();
    w.write_ascii_char(0x07);
    w.write_ascii_char(0x7f);
    w.write_ascii_char(0x80);
    w.write_ascii_char(0x1f);
    for col in 0..4 {
        assert_eq!(w.cell(0, col).char, FALLBACK_GLYPH);
    }
    assert_eq!(w.cursor_col(), 4);
}

#[test]
fn multibyte_utf8_shows_one_fallback_per_byte() {
    let mut w = fresh();
    w.write_str("é");
    assert_eq!(w.cell(0, 0).char, FALLBACK_GLYPH);
    assert_eq!(w.cell(0, 1).char, FALLBACK_GLYPH);
    assert_eq!(w.cell(0, 2).char, BLANK_GLYPH);
    assert_eq!(w.cursor_col(), 2);
}

#[test]
fn full_row_then_wrap() {
    let mut w = fresh();
    let row: String = std::iter::repeat('x').take(COLS).collect();
    w.write_str(&row);
    assert_eq!((w.cursor_row(), w.cursor_col()), (0, COLS));
    for col in 0..COLS {
        assert_eq!(w.cell(0, col).char, b'x');
    }
    w.write_ascii_char(b'y');
    assert_eq!(w.cell(1, 0).char, b'y');
    assert_eq!((w.cursor_row(), w.cursor_col()), (1, 1));
}

#[test]
fn scenario_line_break_between_letters() {
    let mut w = fresh();
    w.write_ascii_char(b'A');
    w.write_ascii_char(b'\n');
    w.write_ascii_char(b'B');
    assert_eq!(w.cell(0, 0).char, b'A');
    assert_eq!(w.cell(1, 0).char, b'B');
    assert_eq!((w.cursor_row(), w.cursor_col()), (1, 1));
}

#[test]
fn scenario_scroll_on_last_row() {
    let mut w = fresh();
    w.write_str("X\nY\n");
    for _ in 0..22 {
        w.write_ascii_char(b'\n');
    }
    assert_eq!((w.cursor_row(), w.cursor_col()), (24, 0));
    assert_eq!(w.cell(0, 0).char, b'X');
    assert_eq!(w.cell(1, 0).char, b'Y');
    w.write_ascii_char(b'\n');
    assert_eq!(w.cell(0, 0).char, b'Y');
    for col in 0..COLS {
        assert_eq!(w.cell(24, col), Character { char: b' ', color: ColorCode(0x0f) });
    }
    assert_eq!((w.cursor_row(), w.cursor_col()), (24, 0));
}

#[test]
fn scroll_moves_every_row_up() {
    let mut w = fresh();
    for r in 0..ROWS {
        w.write_ascii_char(b'a' + (r % 26) as u8);
        if r + 1 < ROWS {
            w.write_ascii_char(b'\n');
        }
    }
    w.write_str("tail");
    w.write_ascii_char(b'\n');
    for r in 0..ROWS - 1 {
        assert_eq!(w.cell(r, 0).char, b'a' + ((r + 1) % 26) as u8);
    }
    assert_eq!(w.cell(23, 1).char, b't');
    assert_eq!(w.cell(24, 0).char, b' ');
    assert_eq!(w.cell(24, 3).char, b' ');
}

#[test]
fn scroll_clears_with_current_attribute() {
    let mut w = Writer::new(ColorCode::new(Color::Green, Color::Red));
    for _ in 0..ROWS {
        w.write_ascii_char(b'\n');
    }
    assert_eq!(w.cell(24, 79), Character { char: b' ', color: ColorCode(0x42) });
}

#[test]
fn scenario_long_string_wraps_onto_next_row() {
    let mut w = fresh();
    let s: String = (0..COLS + 5).map(|i| (b'A' + (i % 26) as u8) as char).collect();
    w.write_str(&s);
    for col in 0..COLS {
        assert_eq!(w.cell(0, col).char, b'A' + (col % 26) as u8);
    }
    for k in 0..5 {
        assert_eq!(w.cell(1, k).char, b'A' + ((COLS + k) % 26) as u8);
    }
    assert_eq!(w.cell(1, 5).char, b' ');
    assert_eq!((w.cursor_row(), w.cursor_col()), (1, 5));
}

#[test]
fn wrap_on_last_row_scrolls() {
    let mut w = fresh();
    for _ in 0..ROWS - 1 {
        w.write_ascii_char(b'\n');
    }
    let row: String = std::iter::repeat('q').take(COLS).collect();
    w.write_str(&row);
    w.write_str("r");
    assert_eq!(w.cell(23, 0).char, b'q');
    assert_eq!(w.cell(24, 0).char, b'r');
    assert_eq!((w.cursor_row(), w.cursor_col()), (24, 1));
}

#[test]
fn write_cp437_char_writes_raw_glyph() {
    let mut w = fresh();
    w.write_cp437_char(0x01);
    w.write_cp437_char(b'\n');
    assert_eq!(w.cell(0, 0).char, 0x01);
    assert_eq!(w.cell(0, 1).char, b'\n');
    assert_eq!(w.cursor_col(), 2);
}

#[test]
fn writer_over_existing_buffer() {
    let b = Buffer::new(Character { char: b'.', color: ColorCode(0x07) });
    let mut w = Writer::with_buffer(b, ColorCode(0x1f));
    w.write_str("ok");
    assert_eq!(w.cell(0, 0), Character { char: b'o', color: ColorCode(0x1f) });
    assert_eq!(w.cell(0, 2), Character { char: b'.', color: ColorCode(0x07) });
    assert_eq!(w.color(), ColorCode(0x1f));
}
