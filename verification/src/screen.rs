//! The console as a mathematical value: a cursor column, the colour in
//! use and the grid of glyph cells, with the operations of the console
//! defined on it and the laws that they obey.

use vstd::prelude::*;
use crate::vga_buffer::{
    ColorCode, ScreenChar, BUFFER_HEIGHT, BUFFER_WIDTH, FIRST_PRINTABLE, LAST_PRINTABLE, NEWLINE,
    PLACEHOLDER,
};

verus! {

/// State of the console.
pub struct Screen {
    /// Column of the bottom row that the next glyph goes to.
    pub column: int,
    /// Colour attribute given to every glyph written from now on.
    pub color: ColorCode,
    /// The grid, top row first; each row left to right.
    pub rows: Seq<Seq<ScreenChar>>,
}

/// Whether the console can display `byte` as it is.
pub open spec fn is_printable(byte: u8) -> bool {
    FIRST_PRINTABLE <= byte <= LAST_PRINTABLE
}

/// The byte that the console writes for `byte` of a string: the byte itself
/// when it is printable or a newline, the placeholder otherwise.
pub open spec fn sanitize(byte: u8) -> u8 {
    if is_printable(byte) || byte == NEWLINE {
        byte
    } else {
        PLACEHOLDER
    }
}

/// Whether a cell holds a character that the console displays: a printable
/// one or the placeholder.
pub open spec fn is_displayable(cell: ScreenChar) -> bool {
    is_printable(cell.ascii_character) || cell.ascii_character == PLACEHOLDER
}

/// The glyph that the console shows for `byte` in the given colour.
pub open spec fn glyph(byte: u8, color: ColorCode) -> ScreenChar {
    ScreenChar { ascii_character: byte, color_code: color }
}

/// A row of blanks in the given colour.
pub open spec fn blank_row(color: ColorCode) -> Seq<ScreenChar> {
    Seq::new(BUFFER_WIDTH as nat, |col: int| ScreenChar::blank(color))
}

/// A row with the glyphs of `bytes` laid over it from column `start` on.
pub open spec fn row_with(
    row: Seq<ScreenChar>,
    start: int,
    bytes: Seq<u8>,
    color: ColorCode,
) -> Seq<ScreenChar> {
    Seq::new(
        row.len(),
        |col: int|
            if start <= col < start + bytes.len() {
                glyph(bytes[col - start], color)
            } else {
                row[col]
            },
    )
}

impl Screen {
    /// The grid has its fixed dimensions and the cursor is on the bottom
    /// row or just past its end.
    pub open spec fn wf(self) -> bool {
        &&& 0 <= self.column <= BUFFER_WIDTH
        &&& self.rows.len() == BUFFER_HEIGHT
        &&& forall|row: int|
            0 <= row < BUFFER_HEIGHT ==> (#[trigger] self.rows[row]).len() == BUFFER_WIDTH
    }

    /// Every cell of the grid holds a character that the console displays.
    pub open spec fn all_displayable(self) -> bool {
        forall|row: int, col: int|
            0 <= row < BUFFER_HEIGHT && 0 <= col < BUFFER_WIDTH ==> is_displayable(
                #[trigger] self.rows[row][col],
            )
    }

    /// The given row overwritten with blanks in the current colour.
    pub open spec fn clear_row(self, row: int) -> Screen {
        Screen { rows: self.rows.update(row, blank_row(self.color)), ..self }
    }

    /// Every row moved up by one, the top row lost, the bottom row blank
    /// in the current colour, and the cursor back at column 0.
    pub open spec fn scroll(self) -> Screen {
        Screen {
            column: 0,
            color: self.color,
            rows: self.rows.subrange(1, BUFFER_HEIGHT as int).push(blank_row(self.color)),
        }
    }

    /// The glyph for `byte` placed at the cursor, and the cursor moved one
    /// column to the right.
    pub open spec fn put(self, byte: u8) -> Screen {
        let last = BUFFER_HEIGHT - 1;
        Screen {
            column: self.column + 1,
            color: self.color,
            rows: self.rows.update(
                last,
                self.rows[last].update(self.column, glyph(byte, self.color)),
            ),
        }
    }

    /// One byte written: a newline scrolls; any other byte is placed at the
    /// cursor, after a scroll when the bottom row is full.
    pub open spec fn write_byte(self, byte: u8) -> Screen {
        if byte == NEWLINE {
            self.scroll()
        } else if self.column >= BUFFER_WIDTH {
            self.scroll().put(byte)
        } else {
            self.put(byte)
        }
    }

    /// The bytes written one after the other, first to last.
    pub open spec fn write_bytes(self, bytes: Seq<u8>) -> Screen
        decreases bytes.len(),
    {
        if bytes.len() == 0 {
            self
        } else {
            self.write_bytes(bytes.drop_last()).write_byte(bytes.last())
        }
    }

    /// The bytes of a string written one after the other, each one first
    /// replaced by what the console can display.
    pub open spec fn write_string(self, bytes: Seq<u8>) -> Screen {
        self.write_bytes(bytes.map_values(|byte: u8| sanitize(byte)))
    }
}

/// After a scroll each row holds what the row below it held, the bottom
/// row is blank in the current colour, and the cursor is at column 0.
pub proof fn scroll_moves_rows_up(screen: Screen)
    requires
        screen.wf(),
    ensures
        screen.scroll().wf(),
        screen.scroll().column == 0,
        screen.scroll().color == screen.color,
        forall|row: int|
            1 <= row < BUFFER_HEIGHT ==> #[trigger] screen.scroll().rows[row - 1]
                == screen.rows[row],
        forall|col: int|
            0 <= col < BUFFER_WIDTH ==> #[trigger] screen.scroll().rows[BUFFER_HEIGHT - 1][col]
                == ScreenChar::blank(screen.color),
{
}

/// Writing one byte keeps the grid's dimensions and the colour. A newline
/// only scrolls. Any other byte changes exactly one cell, the one at the
/// cursor on the bottom row, of the grid as it was or, when the bottom row
/// was full, as one scroll left it; the cursor ends one column further.
pub proof fn write_byte_scrolls_or_places(screen: Screen, byte: u8)
    requires
        screen.wf(),
    ensures
        screen.write_byte(byte).wf(),
        screen.write_byte(byte).color == screen.color,
        byte == NEWLINE ==> screen.write_byte(byte) == screen.scroll(),
        byte != NEWLINE ==> ({
            let base = if screen.column >= BUFFER_WIDTH {
                screen.scroll()
            } else {
                screen
            };
            let after = screen.write_byte(byte);
            &&& after.column == base.column + 1
            &&& after.rows[BUFFER_HEIGHT - 1][base.column] == glyph(byte, screen.color)
            &&& forall|row: int, col: int|
                0 <= row < BUFFER_HEIGHT && 0 <= col < BUFFER_WIDTH && !(row == BUFFER_HEIGHT - 1
                    && col == base.column) ==> #[trigger] after.rows[row][col]
                    == base.rows[row][col]
        }),
{
    scroll_moves_rows_up(screen);
}

/// Writing any bytes keeps the grid's dimensions and the colour.
pub proof fn write_bytes_keeps_shape(screen: Screen, bytes: Seq<u8>)
    requires
        screen.wf(),
    ensures
        screen.write_bytes(bytes).wf(),
        screen.write_bytes(bytes).color == screen.color,
    decreases bytes.len(),
{
    if bytes.len() > 0 {
        write_bytes_keeps_shape(screen, bytes.drop_last());
        write_byte_scrolls_or_places(screen.write_bytes(bytes.drop_last()), bytes.last());
    }
}

/// Writing a string is writing all but its last byte and then the one byte
/// that the console displays for the last.
pub proof fn write_string_step(screen: Screen, bytes: Seq<u8>)
    requires
        bytes.len() > 0,
    ensures
        screen.write_string(bytes) == screen.write_string(bytes.drop_last()).write_byte(
            sanitize(bytes.last()),
        ),
{
    let shown = bytes.map_values(|byte: u8| sanitize(byte));
    assert(shown.drop_last() == bytes.drop_last().map_values(|byte: u8| sanitize(byte)));
}

/// Every byte of a string acts once, in order and on what the bytes before
/// it left: no byte is skipped and none acts twice.
pub proof fn write_string_acts_byte_by_byte(screen: Screen, bytes: Seq<u8>, i: int)
    ensures
        screen.write_string(bytes.take(0)) == screen,
        screen.write_string(bytes.take(bytes.len() as int)) == screen.write_string(bytes),
        0 <= i < bytes.len() ==> screen.write_string(bytes.take(i + 1)) == screen.write_string(
            bytes.take(i),
        ).write_byte(sanitize(bytes[i])),
{
    assert(bytes.take(0).map_values(|byte: u8| sanitize(byte)) == Seq::<u8>::empty());
    assert(bytes.take(bytes.len() as int) == bytes);
    if 0 <= i < bytes.len() {
        write_string_step(screen, bytes.take(i + 1));
        assert(bytes.take(i + 1).drop_last() == bytes.take(i));
    }
}

/// In a string of printable bytes and newlines, every byte acts as itself
/// and does exactly one thing to what the bytes before it left: a newline
/// scrolls, and any other byte changes the one cell at the cursor, of the
/// grid as it was or, when the bottom row was full, as one scroll left it.
pub proof fn printable_string_acts_once_per_byte(screen: Screen, bytes: Seq<u8>, i: int)
    requires
        screen.wf(),
        forall|k: int|
            0 <= k < bytes.len() ==> is_printable(#[trigger] bytes[k]) || bytes[k] == NEWLINE,
        0 <= i < bytes.len(),
    ensures
        screen.write_string(bytes) == screen.write_bytes(bytes),
        ({
            let before = screen.write_string(bytes.take(i));
            let after = screen.write_string(bytes.take(i + 1));
            let base = if before.column >= BUFFER_WIDTH {
                before.scroll()
            } else {
                before
            };
            &&& before.wf()
            &&& after == before.write_byte(bytes[i])
            &&& bytes[i] == NEWLINE ==> after == before.scroll()
            &&& bytes[i] != NEWLINE ==> {
                &&& after.column == base.column + 1
                &&& after.rows[BUFFER_HEIGHT - 1][base.column] == glyph(bytes[i], screen.color)
                &&& forall|row: int, col: int|
                    0 <= row < BUFFER_HEIGHT && 0 <= col < BUFFER_WIDTH && !(row == BUFFER_HEIGHT
                        - 1 && col == base.column) ==> #[trigger] after.rows[row][col]
                        == base.rows[row][col]
            }
        }),
{
    assert(bytes.map_values(|byte: u8| sanitize(byte)) =~= bytes);
    write_string_acts_byte_by_byte(screen, bytes, i);
    let before = screen.write_string(bytes.take(i));
    write_bytes_keeps_shape(screen, bytes.take(i).map_values(|byte: u8| sanitize(byte)));
    write_byte_scrolls_or_places(before, bytes[i]);
}

/// A byte that is neither printable nor a newline is never refused: it is
/// written as the placeholder glyph at the cursor.
pub proof fn unprintable_byte_written_as_placeholder(screen: Screen, byte: u8)
    requires
        screen.wf(),
        !is_printable(byte),
        byte != NEWLINE,
    ensures
        screen.write_string(seq![byte]) == screen.write_byte(PLACEHOLDER),
        ({
            let col = if screen.column >= BUFFER_WIDTH {
                0
            } else {
                screen.column
            };
            screen.write_string(seq![byte]).rows[BUFFER_HEIGHT - 1][col] == glyph(
                PLACEHOLDER,
                screen.color,
            )
        }),
{
    let bytes = seq![byte];
    write_string_acts_byte_by_byte(screen, bytes, 0);
    assert(bytes.take(1) == bytes);
    write_byte_scrolls_or_places(screen, PLACEHOLDER);
}

/// Strings never bring a character into the grid that the console does not
/// display: if every cell holds a printable character or the placeholder,
/// so does every cell after any string is written.
pub proof fn write_string_keeps_cells_displayable(screen: Screen, bytes: Seq<u8>)
    requires
        screen.wf(),
        screen.all_displayable(),
    ensures
        screen.write_string(bytes).wf(),
        screen.write_string(bytes).all_displayable(),
    decreases bytes.len(),
{
    if bytes.len() == 0 {
        assert(bytes.map_values(|byte: u8| sanitize(byte)) =~= Seq::<u8>::empty());
    } else {
        let front = bytes.drop_last();
        write_string_keeps_cells_displayable(screen, front);
        write_string_step(screen, bytes);
        let before = screen.write_string(front);
        let shown = sanitize(bytes.last());
        scroll_moves_rows_up(before);
        write_byte_scrolls_or_places(before, shown);
        let after = before.write_byte(shown);
        assert forall|row: int, col: int|
            0 <= row < BUFFER_HEIGHT && 0 <= col < BUFFER_WIDTH implies is_displayable(
            #[trigger] after.rows[row][col],
        ) by {
            if row < BUFFER_HEIGHT - 1 {
                assert(before.scroll().rows[row + 1 - 1] == before.rows[row + 1]);
            }
        }
    }
}

/// Bytes without a newline that fit in what is left of the bottom row are
/// placed side by side from the cursor on, and nothing scrolls.
pub proof fn bytes_that_fit_do_not_scroll(screen: Screen, bytes: Seq<u8>)
    requires
        screen.wf(),
        screen.column + bytes.len() <= BUFFER_WIDTH,
        forall|i: int| 0 <= i < bytes.len() ==> #[trigger] bytes[i] != NEWLINE,
    ensures
        screen.write_bytes(bytes) == (Screen {
            column: screen.column + bytes.len(),
            color: screen.color,
            rows: screen.rows.update(
                BUFFER_HEIGHT - 1,
                row_with(screen.rows[BUFFER_HEIGHT - 1], screen.column, bytes, screen.color),
            ),
        }),
    decreases bytes.len(),
{
    let last = BUFFER_HEIGHT - 1;
    let target = Screen {
        column: screen.column + bytes.len(),
        color: screen.color,
        rows: screen.rows.update(
            last,
            row_with(screen.rows[last], screen.column, bytes, screen.color),
        ),
    };
    if bytes.len() == 0 {
        assert(row_with(screen.rows[last], screen.column, bytes, screen.color)
            =~= screen.rows[last]);
        assert(target.rows =~= screen.rows);
    } else {
        let front = bytes.drop_last();
        bytes_that_fit_do_not_scroll(screen, front);
        let filled = screen.write_bytes(front);
        assert(filled.column < BUFFER_WIDTH);
        assert(filled.put(bytes.last()).rows[last] =~= target.rows[last]);
        assert(filled.put(bytes.last()).rows =~= target.rows);
    }
}

/// From the start of a row, a full row of printable bytes followed by one
/// more printable byte: the first `BUFFER_WIDTH` bytes fill the bottom row
/// without a scroll, then exactly one scroll moves them up, and the last
/// byte lands at column 0 of the bottom row, which is otherwise blank.
pub proof fn full_row_then_one_byte(screen: Screen, bytes: Seq<u8>)
    requires
        screen.wf(),
        screen.column == 0,
        bytes.len() == BUFFER_WIDTH + 1,
        forall|i: int| 0 <= i < bytes.len() ==> is_printable(#[trigger] bytes[i]),
    ensures
        ({
            let width = BUFFER_WIDTH as int;
            let last = BUFFER_HEIGHT - 1;
            let filled = screen.write_string(bytes.take(width));
            let after = screen.write_string(bytes);
            &&& filled.column == width
            &&& filled.rows == screen.rows.update(
                last,
                Seq::new(BUFFER_WIDTH as nat, |col: int| glyph(bytes[col], screen.color)),
            )
            &&& after == filled.scroll().put(bytes[width])
            &&& after.column == 1
            &&& after.rows[last][0] == glyph(bytes[width], screen.color)
            &&& forall|col: int|
                1 <= col < width ==> #[trigger] after.rows[last][col] == ScreenChar::blank(
                    screen.color,
                )
            &&& forall|col: int|
                0 <= col < width ==> #[trigger] after.rows[last - 1][col] == glyph(
                    bytes[col],
                    screen.color,
                )
            &&& forall|row: int|
                0 <= row < last - 1 ==> #[trigger] after.rows[row] == screen.rows[row + 1]
        }),
{
    let width = BUFFER_WIDTH as int;
    let last = BUFFER_HEIGHT - 1;
    let front = bytes.take(width);
    assert(front.map_values(|byte: u8| sanitize(byte)) =~= front);
    assert(bytes.map_values(|byte: u8| sanitize(byte)) =~= bytes);
    bytes_that_fit_do_not_scroll(screen, front);
    let filled = screen.write_bytes(front);
    assert(bytes.drop_last() =~= front);
    assert(bytes.last() == bytes[width]);
    assert(row_with(screen.rows[last], 0, front, screen.color) =~= Seq::new(
        BUFFER_WIDTH as nat,
        |col: int| glyph(bytes[col], screen.color),
    ));
    scroll_moves_rows_up(filled);
    let after = filled.scroll().put(bytes[width]);
    assert(after.rows[last - 1] == filled.rows[last]);
    assert forall|row: int| 0 <= row < last - 1 implies #[trigger] after.rows[row]
        == screen.rows[row + 1] by {
        assert(filled.scroll().rows[row + 1 - 1] == filled.rows[row + 1]);
    }
}

} // verus!
