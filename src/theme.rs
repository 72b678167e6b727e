use vstd::prelude::*;

verus! {

/// A terminal colour: a named one, an index into the terminal's palette, or
/// red, green and blue values.
#[derive(Clone, Copy, PartialEq, Eq, Structural, Debug)]
pub enum Colour {
    Reset,
    Black,
    Red,
    Green,
    Yellow,
    Blue,
    Magenta,
    Cyan,
    Gray,
    DarkGray,
    LightRed,
    LightGreen,
    LightYellow,
    LightBlue,
    LightMagenta,
    LightCyan,
    White,
    Rgb(u8, u8, u8),
    Indexed(u8),
}

/// A colour by its red, green and blue values.
#[derive(Clone, Copy, PartialEq, Eq, Structural, Debug)]
pub struct CustomColour {
    pub r: u8,
    pub g: u8,
    pub b: u8,
}

pub open spec fn rgb(r: u8, g: u8, b: u8) -> CustomColour {
    CustomColour { r, g, b }
}

/// The values that each named colour stands for; the default background
/// grey for a colour that has none.
pub open spec fn colour_values(colour: Colour) -> CustomColour {
    match colour {
        Colour::Black => rgb(12, 12, 12),
        Colour::Blue => rgb(0, 55, 218),
        Colour::Cyan => rgb(58, 150, 221),
        Colour::Green => rgb(19, 161, 14),
        Colour::Magenta => rgb(136, 23, 152),
        Colour::Red => rgb(197, 15, 31),
        Colour::Gray => rgb(204, 204, 204),
        Colour::Yellow => rgb(193, 156, 0),
        Colour::DarkGray => rgb(118, 118, 118),
        Colour::White => rgb(242, 242, 242),
        Colour::LightBlue => rgb(59, 120, 255),
        Colour::LightCyan => rgb(97, 214, 214),
        Colour::LightGreen => rgb(22, 198, 12),
        Colour::LightMagenta => rgb(180, 0, 158),
        Colour::LightRed => rgb(231, 72, 86),
        Colour::LightYellow => rgb(249, 241, 165),
        Colour::Rgb(r, g, b) => rgb(r, g, b),
        _ => rgb(18, 18, 18),
    }
}

impl CustomColour {
    pub fn from(colour: Colour) -> (r: CustomColour)
        ensures
            r == colour_values(colour),
    {
        match colour {
            Colour::Black => CustomColour { r: 12, g: 12, b: 12 },
            Colour::Blue => CustomColour { r: 0, g: 55, b: 218 },
            Colour::Cyan => CustomColour { r: 58, g: 150, b: 221 },
            Colour::Green => CustomColour { r: 19, g: 161, b: 14 },
            Colour::Magenta => CustomColour { r: 136, g: 23, b: 152 },
            Colour::Red => CustomColour { r: 197, g: 15, b: 31 },
            Colour::Gray => CustomColour { r: 204, g: 204, b: 204 },
            Colour::Yellow => CustomColour { r: 193, g: 156, b: 0 },
            Colour::DarkGray => CustomColour { r: 118, g: 118, b: 118 },
            Colour::White => CustomColour { r: 242, g: 242, b: 242 },
            Colour::LightBlue => CustomColour { r: 59, g: 120, b: 255 },
            Colour::LightCyan => CustomColour { r: 97, g: 214, b: 214 },
            Colour::LightGreen => CustomColour { r: 22, g: 198, b: 12 },
            Colour::LightMagenta => CustomColour { r: 180, g: 0, b: 158 },
            Colour::LightRed => CustomColour { r: 231, g: 72, b: 86 },
            Colour::LightYellow => CustomColour { r: 249, g: 241, b: 165 },
            Colour::Rgb(r, g, b) => CustomColour { r, g, b },
            _ => CustomColour { r: 18, g: 18, b: 18 },
        }
    }

    /// The colour as the terminal takes it.
    pub fn as_tui_colour(&self) -> (r: Colour)
        ensures
            r == Colour::Rgb(self.r, self.g, self.b),
    {
        Colour::Rgb(self.r, self.g, self.b)
    }
}

/// How far a surface stands out from the background.
#[derive(Clone, Copy, PartialEq, Eq, Structural, Debug)]
pub enum Elevation {
    Level0,
    Level1,
    Level2,
    Level3,
    Level4,
    Level6,
    Level8,
    Level12,
    Level16,
    Level24,
}

/// The text cursor of a text box: what it shows, and the style flags it
/// shows with (bold 1, dim 2, italic 4, underlined 8, slow blink 16, rapid
/// blink 32, reversed 64, hidden 128, crossed out 256).
pub struct Cursor {
    pub cursor: String,
    pub modifier: u16,
}

/// The colours of the interface.
pub struct Theme {
    pub background: CustomColour,
    pub primary: CustomColour,
    pub secondary: CustomColour,
    pub text: CustomColour,
    pub text_dimmed: CustomColour,
    pub cursor: Cursor,
}

} // verus!
