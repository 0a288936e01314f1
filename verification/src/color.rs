//! Colours: as the screen model records them, and as the output device
//! takes them.

use vstd::prelude::*;

verus! {

/// The colour of a cell as the screen model records it.
#[derive(Clone, Copy, Debug, PartialEq, Eq, Structural)]
pub enum CellColor {
    /// The terminal's default colour.
    Default,
    /// A colour of the 256-colour palette.
    Idx(u8),
    /// A colour by its red, green and blue parts.
    Rgb(u8, u8, u8),
}

/// A colour of the output device.
#[derive(Clone, Copy, Debug, PartialEq, Eq, Structural)]
pub enum Color {
    /// The device's own default.
    Reset,
    Black,
    DarkGrey,
    Red,
    DarkRed,
    Green,
    DarkGreen,
    Yellow,
    DarkYellow,
    Blue,
    DarkBlue,
    Magenta,
    DarkMagenta,
    Cyan,
    DarkCyan,
    White,
    Grey,
    Rgb { r: u8, g: u8, b: u8 },
}

/// One part of a colour of the 6x6x6 cube: `level` 0 to 5 gives 36, 78,
/// 120, 162, 204, 246.
pub open spec fn cube_level(level: int) -> int {
    level * 42 + 36
}

/// The device colour of palette entry `n`. Entries 0 to 7 are the dark
/// colours and 8 to 15 the bright ones. Entries 16 to 231 form a cube of
/// six levels of red, green and blue, red changing slowest. Entries 232 to
/// 255 are greys from 8 upwards in steps of 10.
pub open spec fn palette_color(n: u8) -> Color {
    if n == 0 {
        Color::Black
    } else if n == 1 {
        Color::DarkRed
    } else if n == 2 {
        Color::DarkGreen
    } else if n == 3 {
        Color::DarkYellow
    } else if n == 4 {
        Color::DarkBlue
    } else if n == 5 {
        Color::DarkMagenta
    } else if n == 6 {
        Color::DarkCyan
    } else if n == 7 {
        Color::Grey
    } else if n == 8 {
        Color::DarkGrey
    } else if n == 9 {
        Color::Red
    } else if n == 10 {
        Color::Green
    } else if n == 11 {
        Color::Yellow
    } else if n == 12 {
        Color::Blue
    } else if n == 13 {
        Color::Magenta
    } else if n == 14 {
        Color::Cyan
    } else if n == 15 {
        Color::White
    } else if n < 232 {
        Color::Rgb {
            r: cube_level((n - 16) / 36) as u8,
            g: cube_level(((n - 16) % 36) / 6) as u8,
            b: cube_level((n - 16) % 6) as u8,
        }
    } else {
        Color::Rgb {
            r: ((n - 232) * 10 + 8) as u8,
            g: ((n - 232) * 10 + 8) as u8,
            b: ((n - 232) * 10 + 8) as u8,
        }
    }
}

/// The device colour that shows a cell colour.
pub open spec fn device_color(color: CellColor) -> Color {
    match color {
        CellColor::Default => Color::Reset,
        CellColor::Idx(n) => palette_color(n),
        CellColor::Rgb(r, g, b) => Color::Rgb { r, g, b },
    }
}

/// The device colour of palette entry `n`.
fn map_palette(n: u8) -> (c: Color)
    ensures
        c == palette_color(n),
{
    if n == 0 {
        Color::Black
    } else if n == 1 {
        Color::DarkRed
    } else if n == 2 {
        Color::DarkGreen
    } else if n == 3 {
        Color::DarkYellow
    } else if n == 4 {
        Color::DarkBlue
    } else if n == 5 {
        Color::DarkMagenta
    } else if n == 6 {
        Color::DarkCyan
    } else if n == 7 {
        Color::Grey
    } else if n == 8 {
        Color::DarkGrey
    } else if n == 9 {
        Color::Red
    } else if n == 10 {
        Color::Green
    } else if n == 11 {
        Color::Yellow
    } else if n == 12 {
        Color::Blue
    } else if n == 13 {
        Color::Magenta
    } else if n == 14 {
        Color::Cyan
    } else if n == 15 {
        Color::White
    } else if n < 232 {
        let cell: u8 = n - 16;
        let r: u8 = (cell / 36) * 42 + 36;
        let g: u8 = ((cell % 36) / 6) * 42 + 36;
        let b: u8 = (cell % 6) * 42 + 36;
        Color::Rgb { r, g, b }
    } else {
        let gray: u8 = (n - 232) * 10 + 8;
        Color::Rgb { r: gray, g: gray, b: gray }
    }
}

/// Maps a cell colour to the device colour that shows it.
pub fn map_vt100_color(color: CellColor) -> (c: Color)
    ensures
        c == device_color(color),
{
    match color {
        CellColor::Default => Color::Reset,
        CellColor::Idx(n) => map_palette(n),
        CellColor::Rgb(r, g, b) => Color::Rgb { r, g, b },
    }
}

} // verus!
