use vstd::prelude::*;

verus! {

/// Rows of the text buffer.
pub const BUFFER_HEIGHT: usize = 25;

/// Columns of the text buffer.
pub const BUFFER_WIDTH: usize = 80;

/// The sixteen colors of the text mode palette.
#[derive(Clone, Copy, Debug, PartialEq, Eq, Structural)]
pub enum Color {
    Black,
    Blue,
    Green,
    Cyan,
    Red,
    Magenta,
    Brown,
    LightGray,
    DarkGray,
    LightBlue,
    LightGreen,
    LightCyan,
    LightRed,
    Pink,
    Yellow,
    White,
}

/// The palette index of a color.
pub open spec fn color_number(c: Color) -> u8 {
    match c {
        Color::Black => 0,
        Color::Blue => 1,
        Color::Green => 2,
        Color::Cyan => 3,
        Color::Red => 4,
        Color::Magenta => 5,
        Color::Brown => 6,
        Color::LightGray => 7,
        Color::DarkGray => 8,
        Color::LightBlue => 9,
        Color::LightGreen => 10,
        Color::LightCyan => 11,
        Color::LightRed => 12,
        Color::Pink => 13,
        Color::Yellow => 14,
        Color::White => 15,
    }
}

impl Color {
    /// The palette index of this color.
    pub fn number(self) -> (r: u8)
        ensures
            r == color_number(self),
    {
        match self {
            Color::Black => 0,
            Color::Blue => 1,
            Color::Green => 2,
            Color::Cyan => 3,
            Color::Red => 4,
            Color::Magenta => 5,
            Color::Brown => 6,
            Color::LightGray => 7,
            Color::DarkGray => 8,
            Color::LightBlue => 9,
            Color::LightGreen => 10,
            Color::LightCyan => 11,
            Color::LightRed => 12,
            Color::Pink => 13,
            Color::Yellow => 14,
            Color::White => 15,
        }
    }
}

/// A foreground and background color packed into one attribute byte.
#[derive(Clone, Copy, Debug, PartialEq, Eq, Structural)]
pub struct ColorCode(pub u8);

impl ColorCode {
    /// Pack `foreground` and `background` into an attribute byte: the
    /// background in the high four bits, the foreground in the low four.
    pub fn new(foreground: Color, background: Color) -> (r: ColorCode)
        ensures
            r.0 == (color_number(background) << 4) | color_number(foreground),
    {
        ColorCode((background.number() << 4) | foreground.number())
    }
}

/// One cell of the text buffer: a character and its colors.
#[derive(Clone, Copy, Debug, PartialEq, Eq, Structural)]
pub struct ScreenChar {
    /// The character shown.
    pub ascii_character: u8,
    /// Its colors.
    pub color_code: ColorCode,
}

/// The buffer after scrolling one row up: every row takes the contents of
/// the row below it, and the bottom row becomes `blank`.
pub open spec fn scrolled(s: Seq<ScreenChar>, blank: ScreenChar) -> Seq<ScreenChar> {
    Seq::new(
        s.len(),
        |i: int|
            if i < s.len() - BUFFER_WIDTH {
                s[i + BUFFER_WIDTH]
            } else {
                blank
            },
    )
}

/// A writer over the text buffer: appends characters on the bottom row,
/// scrolling the rows up on each line break.
///
/// The buffer models the text-mode video memory row by row; the hardware
/// layer mirrors it to the screen and moves the cursor.
pub struct Writer {
    /// Column the next character lands in.
    pub column_position: usize,
    /// Colors for newly written characters.
    pub color_code: ColorCode,
    /// The cells, row-major: row `r`, column `c` at `r * BUFFER_WIDTH + c`.
    pub buffer: Vec<ScreenChar>,
}

impl Writer {
    /// An empty cell in the writer's current colors.
    pub open spec fn blank(self) -> ScreenChar {
        ScreenChar { ascii_character: (' ' as u8), color_code: self.color_code }
    }

    /// The buffer covers the whole screen and the column is at most one
    /// past the last.
    pub open spec fn wf(self) -> bool {
        &&& self.buffer@.len() == BUFFER_HEIGHT * BUFFER_WIDTH
        &&& self.column_position <= BUFFER_WIDTH
    }

    /// The cell at row `row`, column `col`.
    pub open spec fn cell(self, row: int, col: int) -> ScreenChar {
        self.buffer@[row * BUFFER_WIDTH + col]
    }

    /// A writer with a blank screen, white on black, starting at the first
    /// column.
    pub fn new() -> (r: Writer)
        ensures
            r.wf(),
            r.column_position == 0,
            r.color_code == (ColorCode { 0: (color_number(Color::White)) }),
            forall|i: int| 0 <= i < r.buffer@.len() ==> r.buffer@[i] == r.blank(),
    {
        let color_code = ColorCode::new(Color::White, Color::Black);
        proof {
            assert((0u8 << 4) | 15u8 == 15u8) by (bit_vector);
        }
        let blank = ScreenChar { ascii_character: (' ' as u8), color_code };
        let buffer: Vec<ScreenChar> = vec![blank; BUFFER_HEIGHT * BUFFER_WIDTH];
        Writer { column_position: 0, color_code, buffer }
    }

    /// Write one byte at the cursor.
    ///
    /// A backspace steps the cursor back one column; a line break scrolls
    /// the screen; any other byte lands on the bottom row at the current
    /// column — after a line break first, when the row is full — and
    /// advances the cursor.
    pub fn write_byte(&mut self, byte: u8)
        requires
            old(self).wf(),
        ensures
            final(self).wf(),
            final(self).color_code == old(self).color_code,
            byte == 0x08 ==> final(self).buffer@ == old(self).buffer@ && final(self).column_position
                == (if old(self).column_position > 0 {
                old(self).column_position - 1
            } else {
                0int
            }),
            byte == ('\n' as u8) ==> final(self).buffer@ == scrolled(
                old(self).buffer@,
                old(self).blank(),
            ) && final(self).column_position == 0,
            byte != 0x08 && byte != ('\n' as u8) ==> ({
                if old(self).column_position < BUFFER_WIDTH {
                    final(self).buffer@ == old(self).buffer@.update(
                        (BUFFER_HEIGHT - 1) * BUFFER_WIDTH + old(self).column_position,
                        (ScreenChar { ascii_character: byte, color_code: old(self).color_code }),
                    ) && final(self).column_position == old(self).column_position + 1
                } else {
                    final(self).buffer@ == scrolled(old(self).buffer@, old(self).blank()).update(
                        (BUFFER_HEIGHT - 1) * BUFFER_WIDTH,
                        (ScreenChar { ascii_character: byte, color_code: old(self).color_code }),
                    ) && final(self).column_position == 1
                }
            }),
    {
        if byte == 0x08 {
            // Backspace: step back a column.
            if self.column_position > 0 {
                self.column_position = self.column_position - 1;
            }
        } else if byte == ('\n' as u8) {
            self.new_line();
        } else {
            if self.column_position >= BUFFER_WIDTH {
                self.new_line();
            }
            let row = BUFFER_HEIGHT - 1;
            let col = self.column_position;

            self.buffer[row * BUFFER_WIDTH + col] = ScreenChar {
                ascii_character: byte,
                color_code: self.color_code,
            };
            self.column_position = self.column_position + 1;
        }
    }

    /// Scroll every row up by one, blank the bottom row, and return the
    /// cursor to the first column.
    fn new_line(&mut self)
        requires
            old(self).wf(),
        ensures
            final(self).wf(),
            final(self).color_code == old(self).color_code,
            final(self).column_position == 0,
            final(self).buffer@ == scrolled(old(self).buffer@, old(self).blank()),
    {
        let end = (BUFFER_HEIGHT - 1) * BUFFER_WIDTH;
        let mut i: usize = 0;
        while i < end
            invariant
                0 <= i <= end,
                end == (BUFFER_HEIGHT - 1) * BUFFER_WIDTH,
                self.buffer@.len() == BUFFER_HEIGHT * BUFFER_WIDTH,
                self.color_code == old(self).color_code,
                self.column_position == old(self).column_position,
                forall|j: int| 0 <= j < i ==> self.buffer@[j] == old(self).buffer@[j
                    + BUFFER_WIDTH],
                forall|j: int|
                    i <= j < self.buffer@.len() ==> self.buffer@[j] == old(self).buffer@[j],
            decreases end - i,
        {
            let moved = self.buffer[i + BUFFER_WIDTH];
            self.buffer[i] = moved;
            i = i + 1;
        }
        self.clear_row(BUFFER_HEIGHT - 1);
        self.column_position = 0;
        proof {
            assert(self.buffer@ =~= scrolled(old(self).buffer@, old(self).blank()));
        }
    }

    /// Blank out one row in the writer's current colors.
    fn clear_row(&mut self, row: usize)
        requires
            old(self).wf(),
            row < BUFFER_HEIGHT,
        ensures
            final(self).wf(),
            final(self).color_code == old(self).color_code,
            final(self).column_position == old(self).column_position,
            final(self).buffer@.len() == old(self).buffer@.len(),
            forall|j: int|
                0 <= j < final(self).buffer@.len() ==> final(self).buffer@[j] == (if row
                    * BUFFER_WIDTH <= j < (row + 1) * BUFFER_WIDTH {
                    old(self).blank()
                } else {
                    old(self).buffer@[j]
                }),
    {
        let blank = ScreenChar { ascii_character: (' ' as u8), color_code: self.color_code };
        let start = row * BUFFER_WIDTH;
        let mut c: usize = 0;
        while c < BUFFER_WIDTH
            invariant
                0 <= c <= BUFFER_WIDTH,
                row < BUFFER_HEIGHT,
                start == row * BUFFER_WIDTH,
                self.buffer@.len() == BUFFER_HEIGHT * BUFFER_WIDTH,
                self.color_code == old(self).color_code,
                self.column_position == old(self).column_position,
                blank == old(self).blank(),
                forall|j: int|
                    0 <= j < self.buffer@.len() ==> self.buffer@[j] == (if start <= j < start + c {
                        old(self).blank()
                    } else {
                        old(self).buffer@[j]
                    }),
            decreases BUFFER_WIDTH - c,
        {
            self.buffer[start + c] = blank;
            c = c + 1;
        }
    }
}

/// Scroll the whole screen away: after a screenful of line breaks every
/// cell is blank and the cursor is back at the first column.
pub fn clear_screen(writer: &mut Writer)
    requires
        old(writer).wf(),
    ensures
        final(writer).wf(),
        final(writer).color_code == old(writer).color_code,
        final(writer).column_position == 0,
        forall|i: int|
            0 <= i < final(writer).buffer@.len() ==> final(writer).buffer@[i] == final(
                writer).blank(),
{
    let mut k: usize = 0;
    while k < BUFFER_HEIGHT
        invariant
            0 <= k <= BUFFER_HEIGHT,
            writer.wf(),
            writer.color_code == old(writer).color_code,
            k > 0 ==> writer.column_position == 0,
            forall|i: int|
                writer.buffer@.len() - k * BUFFER_WIDTH <= i < writer.buffer@.len()
                    ==> writer.buffer@[i] == writer.blank(),
        decreases BUFFER_HEIGHT - k,
    {
        writer.write_byte('\n' as u8);
        k = k + 1;
    }
}

} // verus!
