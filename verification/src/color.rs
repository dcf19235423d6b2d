use vstd::prelude::*;

verus! {

/// The sixteen portable colors: eight base colors and their intense variants.
///
/// Every console maps a color to its own native code, once for the foreground
/// and once for the background.
#[derive(Clone, Copy, Debug, PartialEq, Eq, Structural)]
pub enum Color {
    Black,
    Blue,
    Green,
    Cyan,
    Red,
    Magenta,
    Brown,
    LightGray,
    DarkGray,
    LightBlue,
    LightGreen,
    LightCyan,
    LightRed,
    LightMagenta,
    Yellow,
    White,
}

} // verus!
