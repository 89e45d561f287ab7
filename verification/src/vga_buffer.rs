//! Text console over the memory-mapped video buffer: a fixed grid of glyph
//! cells, written at the bottom row and scrolled upwards line by line.

use vstd::prelude::*;
use vstd::string::StringSliceAdditionalSpecFns;
use volatile::Volatile;
use crate::screen::{scroll_moves_rows_up, write_string_acts_byte_by_byte, Screen};

verus! {

/// Rows of the text grid.
pub const BUFFER_HEIGHT: usize = 25;

/// Columns of the text grid.
pub const BUFFER_WIDTH: usize = 80;

/// Byte shown in place of any byte the console cannot display.
pub const PLACEHOLDER: u8 = 0xfe;

/// The newline byte, which starts a new line instead of showing a glyph.
pub const NEWLINE: u8 = 0x0a;

/// The space, with which rows are blanked.
pub const SPACE: u8 = 0x20;

/// First byte of the printable range.
pub const FIRST_PRINTABLE: u8 = 0x20;

/// Last byte of the printable range.
pub const LAST_PRINTABLE: u8 = 0x7e;

/// The sixteen colours of the text-mode palette, in palette order.
#[derive(Debug, Clone, Copy, PartialEq, Eq, Structural)]
pub enum Color {
    Black,
    Blue,
    Green,
    Cyan,
    Red,
    Magenta,
    Brown,
    LightGray,
    DarkGray,
    LightBlue,
    LightGreen,
    LightCyan,
    LightRed,
    Pink,
    Yellow,
    White,
}

impl Color {
    /// Palette index of the colour, 0 to 15.
    pub open spec fn index(self) -> u8 {
        match self {
            Color::Black => 0,
            Color::Blue => 1,
            Color::Green => 2,
            Color::Cyan => 3,
            Color::Red => 4,
            Color::Magenta => 5,
            Color::Brown => 6,
            Color::LightGray => 7,
            Color::DarkGray => 8,
            Color::LightBlue => 9,
            Color::LightGreen => 10,
            Color::LightCyan => 11,
            Color::LightRed => 12,
            Color::Pink => 13,
            Color::Yellow => 14,
            Color::White => 15,
        }
    }

    /// The colour with palette index `index % 16`.
    pub open spec fn of_index(index: u8) -> Color {
        match index % 16 {
            0 => Color::Black,
            1 => Color::Blue,
            2 => Color::Green,
            3 => Color::Cyan,
            4 => Color::Red,
            5 => Color::Magenta,
            6 => Color::Brown,
            7 => Color::LightGray,
            8 => Color::DarkGray,
            9 => Color::LightBlue,
            10 => Color::LightGreen,
            11 => Color::LightCyan,
            12 => Color::LightRed,
            13 => Color::Pink,
            14 => Color::Yellow,
            _ => Color::White,
        }
    }

    /// Palette index of the colour.
    pub fn to_u8(self) -> (index: u8)
        ensures
            index == self.index(),
            index < 16,
    {
        match self {
            Color::Black => 0,
            Color::Blue => 1,
            Color::Green => 2,
            Color::Cyan => 3,
            Color::Red => 4,
            Color::Magenta => 5,
            Color::Brown => 6,
            Color::LightGray => 7,
            Color::DarkGray => 8,
            Color::LightBlue => 9,
            Color::LightGreen => 10,
            Color::LightCyan => 11,
            Color::LightRed => 12,
            Color::Pink => 13,
            Color::Yellow => 14,
            Color::White => 15,
        }
    }

    /// The colour named by the low four bits of `index`.
    pub fn from_u8(index: u8) -> (color: Color)
        ensures
            color == Color::of_index(index),
            color.index() == index % 16,
    {
        match index % 16 {
            0 => Color::Black,
            1 => Color::Blue,
            2 => Color::Green,
            3 => Color::Cyan,
            4 => Color::Red,
            5 => Color::Magenta,
            6 => Color::Brown,
            7 => Color::LightGray,
            8 => Color::DarkGray,
            9 => Color::LightBlue,
            10 => Color::LightGreen,
            11 => Color::LightCyan,
            12 => Color::LightRed,
            13 => Color::Pink,
            14 => Color::Yellow,
            _ => Color::White,
        }
    }
}

/// A colour attribute: background in the high four bits, foreground in the
/// low four.
#[derive(Debug, Clone, Copy, PartialEq, Eq, Structural)]
pub struct ColorCode(pub u8);

impl ColorCode {
    /// The attribute byte `background << 4 | foreground`.
    pub open spec fn pack(foreground: Color, background: Color) -> ColorCode {
        ColorCode((background.index() << 4) | foreground.index())
    }

    /// Foreground colour held in the low four bits.
    pub open spec fn spec_foreground(self) -> Color {
        Color::of_index(self.0 & 0x0f)
    }

    /// Background colour held in the high four bits.
    pub open spec fn spec_background(self) -> Color {
        Color::of_index(self.0 >> 4)
    }

    /// The attribute that shows `foreground` on `background`.
    pub fn new(foreground: Color, background: Color) -> (code: ColorCode)
        ensures
            code == ColorCode::pack(foreground, background),
            code.0 == background.index() * 16 + foreground.index(),
    {
        let fg: u8 = foreground.to_u8();
        let bg: u8 = background.to_u8();
        assert(((bg << 4) | fg) == bg * 16 + fg) by (bit_vector)
            requires
                fg < 16,
                bg < 16,
        ;
        ColorCode((bg << 4) | fg)
    }

    /// Foreground colour of the attribute.
    #[verifier::when_used_as_spec(spec_foreground)]
    pub fn foreground(self) -> (color: Color)
        ensures
            color == self.spec_foreground(),
    {
        Color::from_u8(self.0 & 0x0f)
    }

    /// Background colour of the attribute.
    #[verifier::when_used_as_spec(spec_background)]
    pub fn background(self) -> (color: Color)
        ensures
            color == self.spec_background(),
    {
        Color::from_u8(self.0 >> 4)
    }
}

/// Packing is injective and unpacking undoes it: every pair of colours
/// comes back out of the attribute it was packed into.
pub proof fn color_code_unpacks(foreground: Color, background: Color)
    ensures
        ColorCode::pack(foreground, background).spec_foreground() == foreground,
        ColorCode::pack(foreground, background).spec_background() == background,
{
    let fg = foreground.index();
    let bg = background.index();
    assert((((bg << 4) | fg) & 0x0f) == fg && (((bg << 4) | fg) >> 4) == bg) by (bit_vector)
        requires
            fg < 16,
            bg < 16,
    ;
}

/// Every attribute byte is the packing of the two colours it unpacks to,
/// so the 256 attributes and the 16 x 16 colour pairs correspond one to one.
pub proof fn color_code_repacks(code: ColorCode)
    ensures
        ColorCode::pack(code.spec_foreground(), code.spec_background()) == code,
{
    let b = code.0;
    let lo = b & 0x0f;
    let hi = b >> 4;
    assert(lo < 16 && hi < 16 && ((hi << 4) | lo) == b) by (bit_vector)
        requires
            lo == b & 0x0f,
            hi == b >> 4,
    ;
    assert(lo % 16 == lo && hi % 16 == hi);
    assert(Color::of_index(lo).index() == lo);
    assert(Color::of_index(hi).index() == hi);
}

/// One cell of the grid: a character code and the colour it is shown in.
#[derive(Debug, Clone, Copy, PartialEq, Eq, Structural)]
pub struct ScreenChar {
    pub ascii_character: u8,
    pub color_code: ColorCode,
}

impl ScreenChar {
    /// The blank glyph: a space in the given colour.
    pub open spec fn blank(color: ColorCode) -> ScreenChar {
        ScreenChar { ascii_character: SPACE, color_code: color }
    }

    /// The 16-bit word of video memory for this cell: the character in the
    /// low byte, the colour attribute in the high byte.
    pub open spec fn bits(self) -> u16 {
        ((self.color_code.0 as u16) << 8) | (self.ascii_character as u16)
    }

    /// The cell that a word of video memory shows.
    pub open spec fn of_bits(bits: u16) -> ScreenChar {
        ScreenChar {
            ascii_character: (bits & 0xff) as u8,
            color_code: ColorCode((bits >> 8) as u8),
        }
    }

    /// The word of video memory that shows this cell.
    #[verifier::when_used_as_spec(bits)]
    pub fn to_bits(self) -> (bits: u16)
        ensures
            bits == self.bits(),
            ScreenChar::of_bits(bits) == self,
    {
        proof {
            cell_decodes(self);
        }
        ((self.color_code.0 as u16) << 8) | (self.ascii_character as u16)
    }

    /// The cell that a word of video memory shows.
    #[verifier::when_used_as_spec(of_bits)]
    pub fn from_bits(bits: u16) -> (cell: ScreenChar)
        ensures
            cell == ScreenChar::of_bits(bits),
            cell.bits() == bits,
    {
        proof {
            cell_encodes(bits);
        }
        ScreenChar {
            ascii_character: (bits & 0xff) as u8,
            color_code: ColorCode((bits >> 8) as u8),
        }
    }
}

/// A cell comes back unchanged out of the word it is stored as.
pub proof fn cell_decodes(cell: ScreenChar)
    ensures
        ScreenChar::of_bits(cell.bits()) == cell,
{
    let ch = cell.ascii_character;
    let color = cell.color_code.0;
    let bits = ((color as u16) << 8) | (ch as u16);
    assert((bits & 0xff) as u8 == ch && (bits >> 8) as u8 == color) by (bit_vector)
        requires
            bits == ((color as u16) << 8) | (ch as u16),
    ;
}

/// Every word of video memory is the encoding of the cell it shows.
pub proof fn cell_encodes(bits: u16)
    ensures
        ScreenChar::of_bits(bits).bits() == bits,
{
    let ch = (bits & 0xff) as u8;
    let color = (bits >> 8) as u8;
    assert(((color as u16) << 8) | (ch as u16) == bits) by (bit_vector)
        requires
            ch == (bits & 0xff) as u8,
            color == (bits >> 8) as u8,
    ;
}

/// The grid as it lies in video memory: `BUFFER_HEIGHT` rows of
/// `BUFFER_WIDTH` words, row after row, each word behind a volatile cell.
pub type Buffer = [[Volatile<u16>; BUFFER_WIDTH]; BUFFER_HEIGHT];

/// `volatile::Volatile`, carried through as it is.
#[verifier::external_type_specification]
#[verifier::external_body]
#[verifier::reject_recursive_types(T)]
pub struct ExVolatile<T: Copy>(Volatile<T>);

/// The word that a volatile cell holds.
pub uninterp spec fn cell_value(cell: Volatile<u16>) -> u16;

/// `Volatile::read`: a volatile read hands back a copy of the word that the
/// cell holds. It never panics.
#[verifier::external_body]
fn cell_read(cell: &Volatile<u16>) -> (value: u16)
    ensures
        value == cell_value(*cell),
{
    cell.read()
}

/// `Volatile::write`: after a volatile write the cell holds the word
/// written. It never panics.
#[verifier::external_body]
fn cell_write(cell: &mut Volatile<u16>, value: u16)
    ensures
        cell_value(*final(cell)) == value,
    no_unwind
{
    cell.write(value)
}

/// The cells that a buffer shows, top row first.
pub open spec fn buffer_rows(buffer: Buffer) -> Seq<Seq<ScreenChar>> {
    Seq::new(
        BUFFER_HEIGHT as nat,
        |row: int|
            Seq::new(
                BUFFER_WIDTH as nat,
                |col: int| ScreenChar::of_bits(cell_value(buffer@[row]@[col])),
            ),
    )
}

/// The console: writes glyphs along the bottom row of the grid and scrolls
/// the grid up when the row ends.
pub struct Writer {
    column_position: usize,
    color_code: ColorCode,
    buffer: &'static mut Buffer,
}

impl View for Writer {
    type V = Screen;

    closed spec fn view(&self) -> Screen {
        Screen {
            column: self.column_position as int,
            color: self.color_code,
            rows: buffer_rows(*self.buffer),
        }
    }
}

impl Writer {
    #[verifier::type_invariant]
    spec fn cursor_in_row(self) -> bool {
        self.column_position <= BUFFER_WIDTH
    }

    /// The word of video memory at the given row and column.
    spec fn word(self, row: int, col: int) -> u16 {
        cell_value(self.buffer@[row]@[col])
    }

    /// Whether `self` differs from `other` at most in the word at the given
    /// row and column.
    spec fn same_words_but_at(self, other: Writer, row: int, col: int) -> bool {
        forall|r: int, c: int|
            0 <= r < BUFFER_HEIGHT && 0 <= c < BUFFER_WIDTH && (r != row || c != col)
                ==> #[trigger] self.word(r, c) == other.word(r, c)
    }

    /// The grid of the view shows, cell by cell, the words of video memory.
    proof fn grid_shows_words(self)
        requires
            self.column_position <= BUFFER_WIDTH,
        ensures
            self@.wf(),
            forall|row: int, col: int|
                0 <= row < BUFFER_HEIGHT && 0 <= col < BUFFER_WIDTH
                    ==> #[trigger] self@.rows[row][col] == ScreenChar::of_bits(self.word(row, col)),
    {
    }

    /// A console over `buffer` that writes in `color_code`, with the cursor
    /// at the start of the bottom row. The grid keeps what the buffer holds.
    pub fn new(color_code: ColorCode, buffer: &'static mut Buffer) -> (writer: Writer)
        ensures
            writer@ == (Screen { column: 0, color: color_code, rows: buffer_rows(*old(buffer)) }),
            writer@.wf(),
    {
        Writer { column_position: 0, color_code, buffer }
    }

    /// Column of the bottom row that the next glyph goes to.
    pub fn column_position(&self) -> (column: usize)
        ensures
            column == self@.column,
            column <= BUFFER_WIDTH,
            self@.wf(),
    {
        proof {
            use_type_invariant(self);
            self.grid_shows_words();
        }
        self.column_position
    }

    /// Colour attribute given to every glyph that is written.
    pub fn color_code(&self) -> (color_code: ColorCode)
        ensures
            color_code == self@.color,
    {
        self.color_code
    }

    /// The cell shown at the given row and column, if the grid has one
    /// there.
    pub fn cell(&self, row: usize, col: usize) -> (cell: Option<ScreenChar>)
        ensures
            cell is Some <==> row < BUFFER_HEIGHT && col < BUFFER_WIDTH,
            cell matches Some(shown) ==> shown == self@.rows[row as int][col as int],
    {
        if row < BUFFER_HEIGHT && col < BUFFER_WIDTH {
            Some(ScreenChar::from_bits(cell_read(&self.buffer[row][col])))
        } else {
            None
        }
    }

    /// Writes one byte: a newline starts a new line; any other byte goes to
    /// the cursor on the bottom row, on a new line if the row is full.
    pub fn write_byte(&mut self, byte: u8)
        ensures
            final(self)@ == old(self)@.write_byte(byte),
            final(self)@.wf(),
    {
        proof {
            use_type_invariant(&*self);
        }
        if byte == NEWLINE {
            self.new_line();
        } else {
            if self.column_position >= BUFFER_WIDTH {
                self.new_line();
            }
            let row: usize = BUFFER_HEIGHT - 1;
            let col: usize = self.column_position;
            let color_code = self.color_code;
            let glyph = ScreenChar { ascii_character: byte, color_code };
            proof {
                use_type_invariant(&*self);
            }
            let ghost before = *self;
            cell_write(&mut self.buffer[row][col], glyph.to_bits());
            self.column_position += 1;
            proof {
                before.grid_shows_words();
                self.grid_shows_words();
                assert(self.same_words_but_at(before, row as int, col as int));
                assert(self@.rows =~~= before@.put(byte).rows);
            }
        }
    }

    /// Writes a string byte by byte. A byte that is neither printable
    /// ASCII nor a newline is shown as the placeholder glyph.
    pub fn write_string(&mut self, s: &str)
        ensures
            final(self)@ == old(self)@.write_string(s.spec_bytes()),
            final(self)@.wf(),
    {
        proof {
            use_type_invariant(&*self);
            self.grid_shows_words();
        }
        let bytes = s.as_bytes();
        let count: usize = bytes.len();
        let mut done: usize = 0;
        while done < count
            invariant
                done <= count,
                count == bytes@.len(),
                bytes@ == s.spec_bytes(),
                self@ == old(self)@.write_string(bytes@.take(done as int)),
                self@.wf(),
            decreases count - done,
        {
            let byte: u8 = bytes[done];
            proof {
                write_string_acts_byte_by_byte(old(self)@, bytes@, done as int);
            }
            if (FIRST_PRINTABLE <= byte && byte <= LAST_PRINTABLE) || byte == NEWLINE {
                self.write_byte(byte);
            } else {
                self.write_byte(PLACEHOLDER);
            }
            done += 1;
        }
        assert(bytes@.take(count as int) == bytes@);
    }

    /// Starts a new line: every row moves up by one, the bottom row is
    /// blanked in the current colour and the cursor returns to column 0.
    pub fn new_line(&mut self)
        ensures
            final(self)@ == old(self)@.scroll(),
            final(self)@.wf(),
            final(self)@.column == 0,
            final(self)@.color == old(self)@.color,
            forall|row: int|
                1 <= row < BUFFER_HEIGHT ==> #[trigger] final(self)@.rows[row - 1]
                    == old(self)@.rows[row],
            forall|col: int|
                0 <= col < BUFFER_WIDTH ==> #[trigger] final(self)@.rows[BUFFER_HEIGHT - 1][col]
                    == ScreenChar::blank(old(self)@.color),
    {
        proof {
            use_type_invariant(&*self);
        }
        let mut row: usize = 1;
        while row < BUFFER_HEIGHT
            invariant
                1 <= row <= BUFFER_HEIGHT,
                self.column_position == old(self).column_position,
                self.color_code == old(self).color_code,
                forall|r: int, c: int|
                    0 <= r < row - 1 && 0 <= c < BUFFER_WIDTH ==> #[trigger] self.word(r, c)
                        == old(self).word(r + 1, c),
                forall|r: int, c: int|
                    row - 1 <= r < BUFFER_HEIGHT && 0 <= c < BUFFER_WIDTH
                        ==> #[trigger] self.word(r, c) == old(self).word(r, c),
            decreases BUFFER_HEIGHT - row,
        {
            let mut col: usize = 0;
            while col < BUFFER_WIDTH
                invariant
                    1 <= row < BUFFER_HEIGHT,
                    col <= BUFFER_WIDTH,
                    self.column_position == old(self).column_position,
                    self.color_code == old(self).color_code,
                    forall|r: int, c: int|
                        0 <= r < row - 1 && 0 <= c < BUFFER_WIDTH ==> #[trigger] self.word(r, c)
                            == old(self).word(r + 1, c),
                    forall|c: int|
                        0 <= c < col ==> #[trigger] self.word(row - 1, c)
                            == old(self).word(row as int, c),
                    forall|c: int|
                        col <= c < BUFFER_WIDTH ==> #[trigger] self.word(row - 1, c)
                            == old(self).word(row - 1, c),
                    forall|r: int, c: int|
                        row <= r < BUFFER_HEIGHT && 0 <= c < BUFFER_WIDTH
                            ==> #[trigger] self.word(r, c) == old(self).word(r, c),
                decreases BUFFER_WIDTH - col,
            {
                proof {
                    use_type_invariant(&*self);
                }
                let ghost before = *self;
                let character: u16 = cell_read(&self.buffer[row][col]);
                cell_write(&mut self.buffer[row - 1][col], character);
                assert(character == before.word(row as int, col as int));
                assert(self.word(row - 1, col as int) == character);
                assert(self.same_words_but_at(before, row - 1, col as int));
                col += 1;
            }
            row += 1;
        }
        let ghost shifted = *self;
        self.clear_row(BUFFER_HEIGHT - 1);
        let ghost cleared = *self;
        self.column_position = 0;
        proof {
            old(self).grid_shows_words();
            cleared.grid_shows_words();
            self.grid_shows_words();
            assert forall|r: int, c: int|
                0 <= r < BUFFER_HEIGHT && 0 <= c < BUFFER_WIDTH implies #[trigger] self@.rows[r][c]
                == old(self)@.scroll().rows[r][c] by {
                assert(self.word(r, c) == cleared.word(r, c));
                if r < BUFFER_HEIGHT - 1 {
                    assert(cleared.word(r, c) == shifted.word(r, c));
                    assert(shifted.word(r, c) == old(self).word(r + 1, c));
                }
            }
            assert(self@.rows =~~= old(self)@.scroll().rows);
            scroll_moves_rows_up(old(self)@);
        }
    }

    /// Blanks one row in the current colour.
    fn clear_row(&mut self, row: usize)
        requires
            row < BUFFER_HEIGHT,
        ensures
            final(self)@ == old(self)@.clear_row(row as int),
            forall|r: int, c: int|
                0 <= r < BUFFER_HEIGHT && r != row && 0 <= c < BUFFER_WIDTH
                    ==> #[trigger] final(self).word(r, c) == old(self).word(r, c),
    {
        proof {
            use_type_invariant(&*self);
        }
        let blank = ScreenChar { ascii_character: SPACE, color_code: self.color_code };
        let mut col: usize = 0;
        while col < BUFFER_WIDTH
            invariant
                row < BUFFER_HEIGHT,
                col <= BUFFER_WIDTH,
                blank == ScreenChar::blank(old(self).color_code),
                self.column_position == old(self).column_position,
                self.color_code == old(self).color_code,
                forall|c: int| 0 <= c < col ==> #[trigger] self.word(row as int, c) == blank.bits(),
                forall|c: int|
                    col <= c < BUFFER_WIDTH ==> #[trigger] self.word(row as int, c)
                        == old(self).word(row as int, c),
                forall|r: int, c: int|
                    0 <= r < BUFFER_HEIGHT && r != row && 0 <= c < BUFFER_WIDTH
                        ==> #[trigger] self.word(r, c) == old(self).word(r, c),
            decreases BUFFER_WIDTH - col,
        {
            proof {
                use_type_invariant(&*self);
            }
            let ghost before = *self;
            cell_write(&mut self.buffer[row][col], blank.to_bits());
            assert(self.word(row as int, col as int) == blank.bits());
            assert(self.same_words_but_at(before, row as int, col as int));
            col += 1;
        }
        proof {
            use_type_invariant(&*self);
            old(self).grid_shows_words();
            self.grid_shows_words();
            cell_decodes(blank);
            assert forall|r: int, c: int|
                0 <= r < BUFFER_HEIGHT && 0 <= c < BUFFER_WIDTH implies #[trigger] self@.rows[r][c]
                == old(self)@.clear_row(row as int).rows[r][c] by {
                if r != row {
                    assert(self.word(r, c) == old(self).word(r, c));
                } else {
                    assert(self.word(r, c) == blank.bits());
                }
            }
            assert(self@.rows =~~= old(self)@.clear_row(row as int).rows);
        }
    }
}

/// Prints a string on the console: every byte of it, one after the other,
/// as `Writer::write_string` writes it.
pub fn _print(writer: &mut Writer, s: &str)
    ensures
        final(writer)@ == old(writer)@.write_string(s.spec_bytes()),
        final(writer)@.wf(),
{
    writer.write_string(s);
}

} // verus!
