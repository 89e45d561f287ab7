use kernel_core::vga_buffer::{
    Buffer, Color, ColorCode, ScreenChar, Writer, _print, BUFFER_HEIGHT, BUFFER_WIDTH, PLACEHOLDER,
};
use volatile::Volatile;

const PINK_ON_BLACK: ColorCode = ColorCode(0x0d);

fn buffer_of(word: u16) -> &'static mut Buffer {
    let buffer: Buffer = core::array::from_fn(|_| core::array::from_fn(|_| Volatile::new(word)));
    Box::leak(Box::new(buffer))
}

fn fresh_writer() -> Writer {
    let blank = ScreenChar { ascii_character: b' ', color_code: PINK_ON_BLACK };
    Writer::new(ColorCode::new(Color::Pink, Color::Black), buffer_of(blank.to_bits()))
}

fn glyph(byte: u8) -> ScreenChar {
    ScreenChar { ascii_character: byte, color_code: PINK_ON_BLACK }
}

fn row_bytes(writer: &Writer, row: usize) -> Vec<u8> {
    (0..BUFFER_WIDTH).map(|col| writer.cell(row, col).unwrap().ascii_character).collect()
}

fn padded(text: &[u8]) -> Vec<u8> {
    let mut row = text.to_vec();
    row.resize(BUFFER_WIDTH, b' ');
    row
}

fn snapshot(writer: &Writer) -> Vec<Vec<ScreenChar>> {
    (0..BUFFER_HEIGHT)
        .map(|row| (0..BUFFER_WIDTH).map(|col| writer.cell(row, col).unwrap()).collect())
        .collect()
}

#[test]
fn grid_is_25_rows_of_80_columns() {
    assert_eq!(BUFFER_HEIGHT, 25);
    assert_eq!(BUFFER_WIDTH, 80);
    assert_eq!(PLACEHOLDER, 0xfe);
    assert_eq!(core::mem::size_of::<Buffer>(), 25 * 80 * 2);
}

#[test]
fn new_writer_starts_at_column_zero_and_keeps_the_buffer() {
    let writer = Writer::new(ColorCode(0x4e), buffer_of(0x1f41));
    assert_eq!(writer.column_position(), 0);
    assert_eq!(writer.color_code(), ColorCode(0x4e));
    for row in 0..BUFFER_HEIGHT {
        for col in 0..BUFFER_WIDTH {
            assert_eq!(
                writer.cell(row, col),
                Some(ScreenChar { ascii_character: b'A', color_code: ColorCode(0x1f) })
            );
        }
    }
}

#[test]
fn cell_outside_the_grid_is_none() {
    let writer = fresh_writer();
    assert_eq!(writer.cell(BUFFER_HEIGHT, 0), None);
    assert_eq!(writer.cell(0, BUFFER_WIDTH), None);
    assert_eq!(writer.cell(usize::MAX, usize::MAX), None);
    assert!(writer.cell(BUFFER_HEIGHT - 1, BUFFER_WIDTH - 1).is_some());
}

#[test]
fn write_byte_places_glyph_at_cursor_of_last_row() {
    let mut writer = fresh_writer();
    let before = snapshot(&writer);
    writer.write_byte(b'H');
    assert_eq!(writer.column_position(), 1);
    assert_eq!(writer.cell(BUFFER_HEIGHT - 1, 0), Some(glyph(b'H')));
    writer.write_byte(b'i');
    assert_eq!(writer.column_position(), 2);
    assert_eq!(writer.cell(BUFFER_HEIGHT - 1, 1), Some(glyph(b'i')));
    let after = snapshot(&writer);
    for row in 0..BUFFER_HEIGHT {
        for col in 0..BUFFER_WIDTH {
            if !(row == BUFFER_HEIGHT - 1 && col < 2) {
                assert_eq!(after[row][col], before[row][col]);
            }
        }
    }
}

#[test]
fn write_byte_uses_the_writer_color() {
    let mut writer = Writer::new(ColorCode::new(Color::Yellow, Color::Blue), buffer_of(0));
    writer.write_byte(b'x');
    assert_eq!(
        writer.cell(BUFFER_HEIGHT - 1, 0),
        Some(ScreenChar { ascii_character: b'x', color_code: ColorCode(0x1e) })
    );
}

#[test]
fn write_byte_newline_scrolls_and_resets_column() {
    let mut writer = fresh_writer();
    writer.write_byte(b'a');
    writer.write_byte(b'b');
    writer.write_byte(b'\n');
    assert_eq!(writer.column_position(), 0);
    assert_eq!(row_bytes(&writer, BUFFER_HEIGHT - 2), padded(b"ab"));
    assert_eq!(row_bytes(&writer, BUFFER_HEIGHT - 1), padded(b""));
}

#[test]
fn write_byte_stores_any_byte_as_it_is() {
    let mut writer = fresh_writer();
    writer.write_byte(0x01);
    writer.write_byte(0xff);
    assert_eq!(writer.cell(BUFFER_HEIGHT - 1, 0), Some(glyph(0x01)));
    assert_eq!(writer.cell(BUFFER_HEIGHT - 1, 1), Some(glyph(0xff)));
    assert_eq!(writer.column_position(), 2);
}

#[test]
fn new_line_moves_every_row_up_and_blanks_the_last() {
    let mut writer = Writer::new(ColorCode(0x2a), buffer_of(0));
    for row in 0..BUFFER_HEIGHT {
        writer.write_string("row ");
        writer.write_byte(b'a' + row as u8);
        if row + 1 < BUFFER_HEIGHT {
            writer.new_line();
        }
    }
    let before = snapshot(&writer);
    assert_eq!(before[0][4].ascii_character, b'a');
    assert_eq!(before[BUFFER_HEIGHT - 1][4].ascii_character, b'a' + 24);
    writer.new_line();
    let after = snapshot(&writer);
    for row in 1..BUFFER_HEIGHT {
        assert_eq!(after[row - 1], before[row]);
    }
    let blank = ScreenChar { ascii_character: b' ', color_code: ColorCode(0x2a) };
    assert!(after[BUFFER_HEIGHT - 1].iter().all(|cell| *cell == blank));
    assert_eq!(writer.column_position(), 0);
    assert_eq!(writer.color_code(), ColorCode(0x2a));
}

#[test]
fn new_line_copies_colors_along_with_characters() {
    let mut writer = Writer::new(ColorCode(0x0d), buffer_of(0x1f41));
    writer.new_line();
    let old = ScreenChar { ascii_character: b'A', color_code: ColorCode(0x1f) };
    for row in 0..BUFFER_HEIGHT - 1 {
        for col in 0..BUFFER_WIDTH {
            assert_eq!(writer.cell(row, col), Some(old));
        }
    }
    for col in 0..BUFFER_WIDTH {
        assert_eq!(writer.cell(BUFFER_HEIGHT - 1, col), Some(glyph(b' ')));
    }
}

#[test]
fn write_hi_newline_then_bye() {
    let mut writer = fresh_writer();
    writer.write_string("Hi\n");
    writer.write_string("Bye");
    assert_eq!(writer.column_position(), 3);
    assert_eq!(row_bytes(&writer, BUFFER_HEIGHT - 2), padded(b"Hi"));
    assert_eq!(row_bytes(&writer, BUFFER_HEIGHT - 1), padded(b"Bye"));
    for col in 0..BUFFER_WIDTH {
        assert_eq!(writer.cell(BUFFER_HEIGHT - 2, col).unwrap().color_code, PINK_ON_BLACK);
        assert_eq!(writer.cell(BUFFER_HEIGHT - 1, col).unwrap().color_code, PINK_ON_BLACK);
    }
    for row in 0..BUFFER_HEIGHT - 2 {
        assert_eq!(row_bytes(&writer, row), padded(b""));
    }
}

#[test]
fn printable_string_gives_one_cell_per_byte_in_order() {
    let text = "The quick brown fox, 0123456789 ~!@#";
    let mut writer = fresh_writer();
    writer.write_string(text);
    assert_eq!(writer.column_position(), text.len());
    for (col, byte) in text.bytes().enumerate() {
        assert_eq!(writer.cell(BUFFER_HEIGHT - 1, col), Some(glyph(byte)));
    }
    for col in text.len()..BUFFER_WIDTH {
        assert_eq!(writer.cell(BUFFER_HEIGHT - 1, col), Some(glyph(b' ')));
    }
}

#[test]
fn write_string_equals_write_byte_per_byte() {
    let text = "line one\nline two\n\nlast";
    let mut by_string = fresh_writer();
    by_string.write_string(text);
    let mut by_byte = fresh_writer();
    for byte in text.bytes() {
        by_byte.write_byte(byte);
    }
    assert_eq!(snapshot(&by_string), snapshot(&by_byte));
    assert_eq!(by_string.column_position(), by_byte.column_position());
    assert_eq!(by_string.column_position(), 4);
    assert_eq!(row_bytes(&by_string, BUFFER_HEIGHT - 4), padded(b"line one"));
    assert_eq!(row_bytes(&by_string, BUFFER_HEIGHT - 3), padded(b"line two"));
    assert_eq!(row_bytes(&by_string, BUFFER_HEIGHT - 2), padded(b""));
    assert_eq!(row_bytes(&by_string, BUFFER_HEIGHT - 1), padded(b"last"));
}

#[test]
fn empty_string_changes_nothing() {
    let mut writer = fresh_writer();
    writer.write_string("abc");
    let before = snapshot(&writer);
    writer.write_string("");
    assert_eq!(snapshot(&writer), before);
    assert_eq!(writer.column_position(), 3);
}

#[test]
fn bytes_outside_printable_range_become_placeholder() {
    let mut writer = fresh_writer();
    writer.write_string("a\tb\u{7f}c\u{1f}");
    assert_eq!(
        row_bytes(&writer, BUFFER_HEIGHT - 1),
        padded(&[b'a', 0xfe, b'b', 0xfe, b'c', 0xfe])
    );
    assert_eq!(writer.column_position(), 6);
}

#[test]
fn each_byte_of_a_multibyte_character_becomes_one_placeholder() {
    let mut writer = fresh_writer();
    writer.write_string("h\u{e9}llo \u{20ac}!");
    assert_eq!(
        row_bytes(&writer, BUFFER_HEIGHT - 1),
        padded(&[b'h', 0xfe, 0xfe, b'l', b'l', b'o', b' ', 0xfe, 0xfe, 0xfe, b'!'])
    );
    assert_eq!(writer.column_position(), 11);
}

#[test]
fn edges_of_the_printable_range() {
    let mut writer = fresh_writer();
    writer.write_string("\u{20}\u{7e}\u{1f}\u{7f}");
    assert_eq!(row_bytes(&writer, BUFFER_HEIGHT - 1), padded(&[0x20, 0x7e, 0xfe, 0xfe]));
}

#[test]
fn carriage_return_is_not_a_newline() {
    let mut writer = fresh_writer();
    writer.write_string("a\r\nb");
    assert_eq!(row_bytes(&writer, BUFFER_HEIGHT - 2), padded(&[b'a', 0xfe]));
    assert_eq!(row_bytes(&writer, BUFFER_HEIGHT - 1), padded(b"b"));
    assert_eq!(writer.column_position(), 1);
}

#[test]
fn full_row_does_not_scroll_until_the_next_byte() {
    let mut writer = fresh_writer();
    writer.write_string("above\n");
    let full: String = (0..BUFFER_WIDTH).map(|col| (b'0' + (col % 10) as u8) as char).collect();
    writer.write_string(&full);
    assert_eq!(writer.column_position(), BUFFER_WIDTH);
    assert_eq!(row_bytes(&writer, BUFFER_HEIGHT - 1), full.as_bytes());
    assert_eq!(row_bytes(&writer, BUFFER_HEIGHT - 2), padded(b"above"));
    writer.write_byte(b'X');
    assert_eq!(writer.column_position(), 1);
    assert_eq!(row_bytes(&writer, BUFFER_HEIGHT - 1), padded(b"X"));
    assert_eq!(row_bytes(&writer, BUFFER_HEIGHT - 2), full.as_bytes());
    assert_eq!(row_bytes(&writer, BUFFER_HEIGHT - 3), padded(b"above"));
    assert_eq!(row_bytes(&writer, BUFFER_HEIGHT - 4), padded(b""));
}

#[test]
fn eighty_one_bytes_in_one_string_wrap_once() {
    let mut writer = fresh_writer();
    let text: String = (0..BUFFER_WIDTH + 1).map(|col| (b'a' + (col % 26) as u8) as char).collect();
    writer.write_string(&text);
    assert_eq!(writer.column_position(), 1);
    assert_eq!(row_bytes(&writer, BUFFER_HEIGHT - 2), &text.as_bytes()[..BUFFER_WIDTH]);
    assert_eq!(row_bytes(&writer, BUFFER_HEIGHT - 1), padded(&text.as_bytes()[BUFFER_WIDTH..]));
    assert_eq!(row_bytes(&writer, BUFFER_HEIGHT - 3), padded(b""));
}

#[test]
fn newline_after_full_row_scrolls_once() {
    let mut writer = fresh_writer();
    let full: String = (0..BUFFER_WIDTH).map(|_| '#').collect();
    writer.write_string(&full);
    writer.write_byte(b'\n');
    assert_eq!(writer.column_position(), 0);
    assert_eq!(row_bytes(&writer, BUFFER_HEIGHT - 2), full.as_bytes());
    assert_eq!(row_bytes(&writer, BUFFER_HEIGHT - 1), padded(b""));
    assert_eq!(row_bytes(&writer, BUFFER_HEIGHT - 3), padded(b""));
}

#[test]
fn top_row_is_lost_after_25_newlines() {
    let mut writer = fresh_writer();
    writer.write_string("first");
    for _ in 0..BUFFER_HEIGHT - 1 {
        writer.new_line();
    }
    assert_eq!(row_bytes(&writer, 0), padded(b"first"));
    writer.new_line();
    for row in 0..BUFFER_HEIGHT {
        assert_eq!(row_bytes(&writer, row), padded(b""));
    }
}

#[test]
fn print_writes_the_string_on_the_console() {
    let mut printed = fresh_writer();
    _print(&mut printed, "Test!!\n");
    _print(&mut printed, "It is so cool that this works\n");
    let mut written = fresh_writer();
    written.write_string("Test!!\n");
    written.write_string("It is so cool that this works\n");
    assert_eq!(snapshot(&printed), snapshot(&written));
    assert_eq!(printed.column_position(), 0);
    assert_eq!(row_bytes(&printed, BUFFER_HEIGHT - 3), padded(b"Test!!"));
    assert_eq!(row_bytes(&printed, BUFFER_HEIGHT - 2), padded(b"It is so cool that this works"));
    assert_eq!(row_bytes(&printed, BUFFER_HEIGHT - 1), padded(b""));
}

#[test]
fn strings_leave_only_printable_characters_and_placeholders() {
    let mut writer = fresh_writer();
    writer.write_string("plain\n\u{0}\u{7}\u{1b}[0m caf\u{e9} \u{1f600}\r\n~ end");
    for _ in 0..3 {
        writer.write_string("0123456789012345678901234567890123456789\u{80}\u{ff}");
    }
    for row in 0..BUFFER_HEIGHT {
        for byte in row_bytes(&writer, row) {
            assert!((0x20..=0x7e).contains(&byte) || byte == PLACEHOLDER);
        }
    }
}
