//! The sixteen palette colors of the text-mode device and the packed
//! foreground/background attribute byte stored in every cell.

use vstd::prelude::*;

verus! {

/// One of the sixteen colors the device palette offers.
///
/// The order is fixed by the device: the palette index of each variant is its
/// position in this list, from `Black` at 0 up to `White` at 15.
#[derive(Clone, Copy, Debug, PartialEq, Eq, Structural)]
pub enum Color {
    Black,
    Blue,
    Green,
    Cyan,
    Red,
    Magenta,
    Brown,
    LightGrey,
    DarkGrey,
    LightBlue,
    LightGreen,
    LightCyan,
    LightRed,
    Pink,
    Yellow,
    White,
}

impl Color {
    /// The palette index of this color, 0 through 15.
    pub open spec fn code_spec(self) -> u8 {
        match self {
            Color::Black => 0,
            Color::Blue => 1,
            Color::Green => 2,
            Color::Cyan => 3,
            Color::Red => 4,
            Color::Magenta => 5,
            Color::Brown => 6,
            Color::LightGrey => 7,
            Color::DarkGrey => 8,
            Color::LightBlue => 9,
            Color::LightGreen => 10,
            Color::LightCyan => 11,
            Color::LightRed => 12,
            Color::Pink => 13,
            Color::Yellow => 14,
            Color::White => 15,
        }
    }

    /// The palette index of this color, 0 through 15.
    #[verifier::when_used_as_spec(code_spec)]
    pub fn code(self) -> (code: u8)
        ensures
            code == self.code_spec(),
    {
        match self {
            Color::Black => 0,
            Color::Blue => 1,
            Color::Green => 2,
            Color::Cyan => 3,
            Color::Red => 4,
            Color::Magenta => 5,
            Color::Brown => 6,
            Color::LightGrey => 7,
            Color::DarkGrey => 8,
            Color::LightBlue => 9,
            Color::LightGreen => 10,
            Color::LightCyan => 11,
            Color::LightRed => 12,
            Color::Pink => 13,
            Color::Yellow => 14,
            Color::White => 15,
        }
    }
}

/// A foreground/background color pair packed into the single attribute byte a
/// cell stores: high nibble the background index, low nibble the foreground
/// index.
#[derive(Clone, Copy, Debug, PartialEq, Eq, Structural)]
pub struct ColorCode(u8);

impl View for ColorCode {
    type V = u8;

    closed spec fn view(&self) -> u8 {
        self.0
    }
}

/// The attribute byte that encodes `foreground` on `background`.
pub open spec fn attribute_byte(foreground: Color, background: Color) -> u8 {
    (background.code_spec() << 4) | foreground.code_spec()
}

impl ColorCode {
    /// Packs a foreground and a background color into one attribute byte.
    pub fn new(foreground: Color, background: Color) -> (code: ColorCode)
        ensures
            code@ == attribute_byte(foreground, background),
    {
        ColorCode((background.code() << 4) | foreground.code())
    }

    /// The packed attribute byte itself.
    pub fn value(self) -> (byte: u8)
        ensures
            byte == self@,
    {
        self.0
    }
}

} // verus!
