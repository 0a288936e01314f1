use shell_terminal::color::{map_vt100_color, CellColor, Color};

#[test]
fn the_default_colour_resets() {
    assert_eq!(map_vt100_color(CellColor::Default), Color::Reset);
}

#[test]
fn the_sixteen_named_colours() {
    let named = [
        Color::Black,
        Color::DarkRed,
        Color::DarkGreen,
        Color::DarkYellow,
        Color::DarkBlue,
        Color::DarkMagenta,
        Color::DarkCyan,
        Color::Grey,
        Color::DarkGrey,
        Color::Red,
        Color::Green,
        Color::Yellow,
        Color::Blue,
        Color::Magenta,
        Color::Cyan,
        Color::White,
    ];
    for (n, color) in named.iter().enumerate() {
        assert_eq!(map_vt100_color(CellColor::Idx(n as u8)), *color);
    }
}

#[test]
fn the_colour_cube() {
    assert_eq!(map_vt100_color(CellColor::Idx(16)), Color::Rgb { r: 36, g: 36, b: 36 });
    assert_eq!(map_vt100_color(CellColor::Idx(17)), Color::Rgb { r: 36, g: 36, b: 78 });
    assert_eq!(map_vt100_color(CellColor::Idx(21)), Color::Rgb { r: 36, g: 36, b: 246 });
    assert_eq!(map_vt100_color(CellColor::Idx(22)), Color::Rgb { r: 36, g: 78, b: 36 });
    assert_eq!(map_vt100_color(CellColor::Idx(52)), Color::Rgb { r: 78, g: 36, b: 36 });
    assert_eq!(map_vt100_color(CellColor::Idx(196)), Color::Rgb { r: 246, g: 36, b: 36 });
    assert_eq!(map_vt100_color(CellColor::Idx(231)), Color::Rgb { r: 246, g: 246, b: 246 });
}

#[test]
fn every_cube_entry_by_its_formula() {
    for n in 16u16..232 {
        let cell = n - 16;
        let expected = Color::Rgb {
            r: (cell / 36 * 42 + 36) as u8,
            g: (cell % 36 / 6 * 42 + 36) as u8,
            b: (cell % 6 * 42 + 36) as u8,
        };
        assert_eq!(map_vt100_color(CellColor::Idx(n as u8)), expected);
    }
}

#[test]
fn the_greys() {
    assert_eq!(map_vt100_color(CellColor::Idx(232)), Color::Rgb { r: 8, g: 8, b: 8 });
    assert_eq!(map_vt100_color(CellColor::Idx(233)), Color::Rgb { r: 18, g: 18, b: 18 });
    assert_eq!(map_vt100_color(CellColor::Idx(255)), Color::Rgb { r: 238, g: 238, b: 238 });
}

#[test]
fn true_colour_passes_through() {
    assert_eq!(map_vt100_color(CellColor::Rgb(1, 2, 3)), Color::Rgb { r: 1, g: 2, b: 3 });
    assert_eq!(map_vt100_color(CellColor::Rgb(255, 0, 128)), Color::Rgb { r: 255, g: 0, b: 128 });
}
