//! Colours and styles as plain values, for a terminal layer to draw with.

use vstd::prelude::*;

verus! {

/// A terminal colour: the sixteen named ones, the terminal's own default
/// (`Reset`), a palette index or a 24-bit value.
#[derive(Clone, Copy, PartialEq, Eq, Debug, Structural)]
pub enum Color {
    Reset,
    Black,
    Red,
    Green,
    Yellow,
    Blue,
    Magenta,
    Cyan,
    Gray,
    DarkGray,
    LightRed,
    LightGreen,
    LightYellow,
    LightBlue,
    LightMagenta,
    LightCyan,
    White,
    Rgb(u8, u8, u8),
    Indexed(u8),
}

/// How a cell is drawn. `None` leaves the colour that is already there.
#[derive(Clone, Copy, PartialEq, Eq, Debug, Structural)]
pub struct Style {
    pub fg: Option<Color>,
    pub bg: Option<Color>,
}

impl Style {
    /// The style that changes nothing.
    pub fn new() -> (style: Self)
        ensures
            style == (Style { fg: None, bg: None }),
    {
        Style { fg: None, bg: None }
    }

    /// This style with its foreground set.
    pub fn fg(self, color: Color) -> (style: Self)
        ensures
            style == (Style { fg: Some(color), bg: self.bg }),
    {
        Style { fg: Some(color), bg: self.bg }
    }

    /// This style with its background set.
    pub fn bg(self, color: Color) -> (style: Self)
        ensures
            style == (Style { fg: self.fg, bg: Some(color) }),
    {
        Style { fg: self.fg, bg: Some(color) }
    }
}

} // verus!
