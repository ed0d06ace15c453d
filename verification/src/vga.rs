//! The VGA text buffer model: colour codes, screen characters and the
//! writer that fills the bottom row of the 80x25 text matrix.
//!
//! The memory-mapped buffer at the VGA address, and the serial mirror of
//! everything printed, are the shim's; the writer here owns a plain copy
//! of the matrix and is what decides which cell every byte lands in.

use vstd::prelude::*;

verus! {

pub const BUFFER_HEIGHT: usize = 25;

pub const BUFFER_WIDTH: usize = 80;

/// The sixteen VGA text-mode colours, in their hardware order.
#[derive(Clone, Copy, Debug, PartialEq, Eq, Structural)]
pub enum Colour {
    Black,
    Blue,
    Green,
    Cyan,
    Red,
    Magenta,
    Brown,
    LightGray,
    DarkGray,
    LightBlue,
    LightGreen,
    LightCyan,
    LightRed,
    Pink,
    Yellow,
    White,
}

impl Colour {
    /// The four-bit value the hardware gives this colour.
    pub open spec fn code_spec(&self) -> u8 {
        match self {
            Colour::Black => 0,
            Colour::Blue => 1,
            Colour::Green => 2,
            Colour::Cyan => 3,
            Colour::Red => 4,
            Colour::Magenta => 5,
            Colour::Brown => 6,
            Colour::LightGray => 7,
            Colour::DarkGray => 8,
            Colour::LightBlue => 9,
            Colour::LightGreen => 10,
            Colour::LightCyan => 11,
            Colour::LightRed => 12,
            Colour::Pink => 13,
            Colour::Yellow => 14,
            Colour::White => 15,
        }
    }

    pub fn code(&self) -> (r: u8)
        ensures
            r == self.code_spec(),
    {
        match self {
            Colour::Black => 0,
            Colour::Blue => 1,
            Colour::Green => 2,
            Colour::Cyan => 3,
            Colour::Red => 4,
            Colour::Magenta => 5,
            Colour::Brown => 6,
            Colour::LightGray => 7,
            Colour::DarkGray => 8,
            Colour::LightBlue => 9,
            Colour::LightGreen => 10,
            Colour::LightCyan => 11,
            Colour::LightRed => 12,
            Colour::Pink => 13,
            Colour::Yellow => 14,
            Colour::White => 15,
        }
    }
}

/// Foreground and background packed into one attribute byte.
#[derive(Clone, Copy, Debug, PartialEq, Eq, Structural)]
pub struct ColourCode(pub u8);

impl ColourCode {
    /// The background colour in the high four bits, the foreground in the
    /// low four.
    pub fn new(foreground: Colour, background: Colour) -> (r: Self)
        ensures
            r == ColourCode((background.code_spec() * 16 + foreground.code_spec()) as u8),
    {
        ColourCode(background.code() * 16 + foreground.code())
    }
}

/// One screen cell: a character byte and its colour attribute.
#[derive(Clone, Copy, Debug, PartialEq, Eq, Structural)]
pub struct Char {
    pub ascii_character: u8,
    pub colour_code: ColourCode,
}

/// The 80x25 text matrix.
#[derive(Clone, Debug, PartialEq, Eq)]
pub struct Buffer {
    pub chars: Vec<Vec<Char>>,
}

impl Buffer {
    /// Exactly `BUFFER_HEIGHT` rows of `BUFFER_WIDTH` cells.
    pub open spec fn well_formed(&self) -> bool {
        &&& self.chars@.len() == BUFFER_HEIGHT
        &&& forall|r: int| 0 <= r < self.chars@.len()
            ==> (#[trigger] self.chars@[r])@.len() == BUFFER_WIDTH
    }
}

/// Writes characters into the bottom row of the buffer, left to right.
pub struct Writer {
    pub column_position: usize,
    pub colour_code: ColourCode,
    pub buffer: Buffer,
}

impl Writer {
    /// The cursor never runs past the row end by more than the wrap
    /// check allows.
    pub open spec fn well_formed(&self) -> bool {
        &&& self.buffer.well_formed()
        &&& self.column_position <= BUFFER_WIDTH
    }

    /// Where the next printable byte lands: the current column, except
    /// that a full row wraps to a fresh line first.
    pub open spec fn target_column(&self) -> int {
        if self.column_position >= BUFFER_WIDTH {
            0
        } else {
            self.column_position as int
        }
    }

    /// Write one byte: a newline resets the column, any other byte is
    /// placed — in the current colour — at the bottom row's next cell,
    /// wrapping to a fresh line when the row is full.
    pub fn write_byte(&mut self, byte: u8)
        requires
            old(self).well_formed(),
        ensures
            final(self).well_formed(),
            final(self).colour_code == old(self).colour_code,
            byte == 10 ==> final(self).column_position == 0
                && final(self).buffer == old(self).buffer,
            byte != 10 ==> {
                let row = BUFFER_HEIGHT - 1;
                let col = old(self).target_column();
                &&& final(self).column_position == col + 1
                &&& final(self).buffer.chars@.len() == old(self).buffer.chars@.len()
                &&& (forall|r: int| 0 <= r < old(self).buffer.chars@.len() && r != row
                    ==> final(self).buffer.chars@[r] == old(self).buffer.chars@[r])
                &&& final(self).buffer.chars@[row as int]@
                    == old(self).buffer.chars@[row as int]@.update(
                        col,
                        Char { ascii_character: byte, colour_code: old(self).colour_code },
                    )
            },
    {
        if byte == 10 {
            self.new_line();
        } else {
            if self.column_position >= BUFFER_WIDTH {
                self.new_line();
            }

            let row: usize = BUFFER_HEIGHT - 1;
            let col: usize = self.column_position;

            let colour_code = self.colour_code;
            self.buffer.chars[row][col] = Char { ascii_character: byte, colour_code };
            self.column_position = self.column_position + 1;
        }
    }

    /// What the text sink shows for a byte: itself if printable, a tilde
    /// otherwise.
    pub fn printable_or_tilde(byte: u8) -> (r: u8)
        ensures
            0x20 <= byte <= 0x7e ==> r == byte,
            !(0x20 <= byte <= 0x7e) ==> r == 0x7eu8,
    {
        if 0x20 <= byte && byte <= 0x7e {
            byte
        } else {
            0x7e
        }
    }

    /// Start a fresh line: only the column resets — the design leaves
    /// scrolling to the shim that owns the memory-mapped buffer.
    pub fn new_line(&mut self)
        ensures
            *final(self) == (Writer {
                column_position: 0usize,
                ..*old(self)
            }),
    {
        self.column_position = 0;
    }
}

} // verus!
