use vstd::prelude::*;

verus! {

/// A terminal foreground or background color.
///
/// `Reset` stands for the terminal's default color. The named variants are
/// the classic 8-color palette; `DarkGrey` is the bright-black entry used for
/// the bright-foreground escape code 90. `AnsiValue` selects one entry of the
/// 256-entry indexed palette, and `Rgb` is a 24-bit true color.
#[derive(Clone, Copy, Debug, PartialEq, Eq, Structural)]
pub enum Color {
    Reset,
    Black,
    Red,
    Green,
    Yellow,
    Blue,
    Magenta,
    Cyan,
    White,
    DarkGrey,
    AnsiValue(u8),
    Rgb { r: u8, g: u8, b: u8 },
}

} // verus!
