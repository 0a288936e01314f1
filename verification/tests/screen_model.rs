use shell_terminal::color::CellColor;
use shell_terminal::screen::{Cell, CellAttributes, ScreenModel};

const PLAIN: CellAttributes =
    CellAttributes { bold: false, italic: false, underline: false, inverse: false };

fn cell(text: &str, fg: CellColor, bg: CellColor) -> Option<Cell> {
    Some(Cell { text: text.to_string(), fg, bg, attributes: PLAIN })
}

fn snapshot(screen: &ScreenModel) -> (Vec<Option<Cell>>, (u16, u16)) {
    let (rows, cols) = screen.size();
    let mut cells = Vec::new();
    for row in 0..rows {
        for col in 0..cols {
            cells.push(screen.cell(row, col));
        }
    }
    (cells, screen.cursor_position())
}

#[test]
fn a_new_screen_is_blank_with_the_cursor_at_the_origin() {
    let screen = ScreenModel::new(24, 80);
    assert_eq!(screen.size(), (24, 80));
    assert_eq!(screen.cursor_position(), (0, 0));
    for row in 0..24 {
        for col in 0..80 {
            assert_eq!(screen.cell(row, col), cell("", CellColor::Default, CellColor::Default));
        }
    }
}

#[test]
fn there_is_no_cell_outside_the_grid() {
    let screen = ScreenModel::new(24, 80);
    assert_eq!(screen.cell(24, 0), None);
    assert_eq!(screen.cell(0, 80), None);
    assert_eq!(screen.cell(u16::MAX, u16::MAX), None);
}

#[test]
fn red_hello_as_the_pseudo_terminal_delivers_it() {
    let mut screen = ScreenModel::new(24, 80);
    screen.process(b"\x1b[31mHELLO \x1b[0m\r\n");
    let red = CellColor::Idx(1);
    assert_eq!(screen.cell(0, 0), cell("H", red, CellColor::Default));
    assert_eq!(screen.cell(0, 1), cell("E", red, CellColor::Default));
    assert_eq!(screen.cell(0, 2), cell("L", red, CellColor::Default));
    assert_eq!(screen.cell(0, 3), cell("L", red, CellColor::Default));
    assert_eq!(screen.cell(0, 4), cell("O", red, CellColor::Default));
    assert_eq!(screen.cell(0, 5).unwrap().text, " ");
    assert_eq!(screen.cell(0, 6), cell("", CellColor::Default, CellColor::Default));
    assert_eq!(screen.cursor_position(), (1, 0));
}

#[test]
fn a_bare_line_feed_moves_down_and_keeps_the_column() {
    let mut screen = ScreenModel::new(24, 80);
    screen.process(b"\x1b[31mHELLO \x1b[0m\n");
    assert_eq!(screen.cell(0, 4), cell("O", CellColor::Idx(1), CellColor::Default));
    assert_eq!(screen.cursor_position(), (1, 6));
}

#[test]
fn colours_of_the_palette_and_true_colour() {
    let mut screen = ScreenModel::new(4, 20);
    screen.process(b"\x1b[38;5;200ma\x1b[48;5;17mb\x1b[38;2;1;2;3mc\x1b[48;2;9;8;7md\x1b[0me");
    assert_eq!(screen.cell(0, 0), cell("a", CellColor::Idx(200), CellColor::Default));
    assert_eq!(screen.cell(0, 1), cell("b", CellColor::Idx(200), CellColor::Idx(17)));
    assert_eq!(screen.cell(0, 2), cell("c", CellColor::Rgb(1, 2, 3), CellColor::Idx(17)));
    assert_eq!(screen.cell(0, 3), cell("d", CellColor::Rgb(1, 2, 3), CellColor::Rgb(9, 8, 7)));
    assert_eq!(screen.cell(0, 4), cell("e", CellColor::Default, CellColor::Default));
}

#[test]
fn attributes_of_cells() {
    let mut screen = ScreenModel::new(4, 20);
    screen.process(b"\x1b[1mb\x1b[3mi\x1b[4mu\x1b[7mr\x1b[22;23mx\x1b[0mp");
    let attributes = |col: u16| screen.cell(0, col).unwrap().attributes;
    assert_eq!(attributes(0), CellAttributes { bold: true, ..PLAIN });
    assert_eq!(attributes(1), CellAttributes { bold: true, italic: true, ..PLAIN });
    assert_eq!(attributes(2), CellAttributes { bold: true, italic: true, underline: true, ..PLAIN });
    assert_eq!(
        attributes(3),
        CellAttributes { bold: true, italic: true, underline: true, inverse: true }
    );
    assert_eq!(attributes(4), CellAttributes { underline: true, inverse: true, ..PLAIN });
    assert_eq!(attributes(5), PLAIN);
    assert_eq!(attributes(6), PLAIN);
}

#[test]
fn cursor_movement_and_erasing() {
    let mut screen = ScreenModel::new(5, 10);
    screen.process(b"abcdef\x1b[1;3H\x1b[K");
    assert_eq!(screen.cell(0, 1).unwrap().text, "b");
    assert_eq!(screen.cell(0, 2).unwrap().text, "");
    assert_eq!(screen.cell(0, 5).unwrap().text, "");
    assert_eq!(screen.cursor_position(), (0, 2));
    screen.process(b"\x1b[3;4Hx\x1b[2J");
    assert_eq!(screen.cell(0, 0).unwrap().text, "");
    assert_eq!(screen.cell(2, 3).unwrap().text, "");
    assert_eq!(screen.cursor_position(), (2, 4));
}

#[test]
fn text_wraps_at_the_right_edge_and_scrolls_at_the_bottom() {
    let mut screen = ScreenModel::new(2, 4);
    screen.process(b"abcdef");
    assert_eq!(screen.cell(0, 3).unwrap().text, "d");
    assert_eq!(screen.cell(1, 0).unwrap().text, "e");
    assert_eq!(screen.cell(1, 1).unwrap().text, "f");
    assert_eq!(screen.cursor_position(), (1, 2));
    screen.process(b"gh12");
    assert_eq!(screen.cell(0, 0).unwrap().text, "e");
    assert_eq!(screen.cell(0, 3).unwrap().text, "h");
    assert_eq!(screen.cell(1, 0).unwrap().text, "1");
    assert_eq!(screen.cell(1, 1).unwrap().text, "2");
}

#[test]
fn sequences_that_are_not_understood_are_passed_over() {
    let mut screen = ScreenModel::new(3, 10);
    screen.process(b"\x1b[?9999h\x1b[77;88;99zok\x1b]777;junk\x07\x1bQ!");
    screen.process(&[0xff, 0xfe, 0x80, 0x00, 0x1b]);
    assert_eq!(screen.cell(0, 0).unwrap().text, "o");
    assert_eq!(screen.cell(0, 1).unwrap().text, "k");
    assert_eq!(screen.size(), (3, 10));
}

#[test]
fn resize_makes_the_screen_blank_at_the_new_size() {
    let mut screen = ScreenModel::new(24, 80);
    screen.process(b"\x1b[32msome text\r\nmore");
    screen.resize(10, 40);
    assert_eq!(screen.size(), (10, 40));
    assert_eq!(screen.cursor_position(), (0, 0));
    assert_eq!(snapshot(&screen), snapshot(&ScreenModel::new(10, 40)));
    assert_eq!(screen.cell(0, 0), cell("", CellColor::Default, CellColor::Default));
    assert_eq!(screen.cell(10, 0), None);
}

#[test]
fn resize_to_the_same_size_twice_changes_nothing_the_second_time() {
    let mut screen = ScreenModel::new(24, 80);
    screen.process(b"\x1b[31mHELLO\x1b[0m\r\nworld");
    screen.resize(40, 100);
    let once = snapshot(&screen);
    screen.resize(40, 100);
    assert_eq!(screen.size(), (40, 100));
    assert_eq!(snapshot(&screen), once);
}

#[test]
fn process_gives_the_same_screen_however_the_bytes_are_cut() {
    let bytes: &[u8] =
        b"\x1b[1;31mred\x1b[0m \xe4\xb8\xad\xe6\x96\x87\r\n\x1b[38;2;10;20;30mrgb\x1b[2;5Hx\x1b[Kend\r\n\xc3\xa9";
    let mut whole = ScreenModel::new(6, 20);
    whole.process(bytes);
    let expected = snapshot(&whole);
    for cut in 0..=bytes.len() {
        let mut split = ScreenModel::new(6, 20);
        split.process(&bytes[..cut]);
        split.process(&bytes[cut..]);
        assert_eq!(snapshot(&split), expected, "cut at {}", cut);
    }
    let mut single = ScreenModel::new(6, 20);
    for byte in bytes {
        single.process(&[*byte]);
    }
    assert_eq!(snapshot(&single), expected);
    let mut thirds = ScreenModel::new(6, 20);
    for chunk in bytes.chunks(3) {
        thirds.process(chunk);
        thirds.process(&[]);
    }
    assert_eq!(snapshot(&thirds), expected);
}

#[test]
fn a_grid_that_is_too_small_or_too_wide_stays_without_cells() {
    for (rows, cols) in [
        (0u16, 0u16),
        (0, 80),
        (1, 80),
        (24, 0),
        (24, 1),
        (24, 2),
        (1, 1),
        (2, 65528),
        (2, u16::MAX),
    ] {
        let mut screen = ScreenModel::new(rows, cols);
        screen.process("text \u{4e2d}\u{17d8}\t\r\n".as_bytes());
        assert_eq!(screen.size(), (rows, cols));
        assert_eq!(screen.cell(0, 0), None);
        assert_eq!(screen.cursor_position(), (0, 0));
    }
}

#[test]
fn the_smallest_grid_with_cells_takes_wide_characters_and_wraps() {
    let mut screen = ScreenModel::new(2, 3);
    screen.process("\u{4e2d}\u{6587}\u{5b57}ab".as_bytes());
    assert_eq!(screen.size(), (2, 3));
    assert_eq!(screen.cell(0, 0).unwrap().text, "\u{5b57}");
    assert_eq!(screen.cell(0, 2).unwrap().text, "a");
    assert_eq!(screen.cell(1, 0).unwrap().text, "b");
    assert_eq!(screen.cell(1, 1).unwrap().text, "");
}

#[test]
fn the_smallest_grid_with_cells_takes_the_widest_character() {
    for bytes in ["\u{17d8}", "a\u{17d8}", "\u{17d8}\u{17d8}", "ab\u{17d8}\u{17d8}c\u{17d8}"] {
        let mut screen = ScreenModel::new(2, 3);
        screen.process(bytes.as_bytes());
        assert_eq!(screen.size(), (2, 3));
        assert!(screen.cursor_position().0 < 2);
    }
    let mut screen = ScreenModel::new(2, 3);
    screen.process("\u{17d8}".as_bytes());
    assert_eq!(screen.cell(0, 0).unwrap().text, "\u{17d8}");
}

#[test]
fn the_widest_grid_takes_a_tab_at_its_right_edge() {
    let mut screen = ScreenModel::new(2, 65527);
    assert_eq!(screen.cell(1, 65526), cell("", CellColor::Default, CellColor::Default));
    assert_eq!(screen.cell(1, 65527), None);
    screen.process(b"\x1b[1;65535H");
    assert_eq!(screen.cursor_position(), (0, 65526));
    screen.process(b"\t");
    assert_eq!(screen.cursor_position(), (0, 65526));
    screen.process(b"xy\t\tz");
    assert_eq!(screen.size(), (2, 65527));
    assert!(screen.cursor_position().1 <= 65527);
}

fn next_number(state: &mut u64) -> u64 {
    *state = state.wrapping_mul(6364136223846793005).wrapping_add(1442695040888963407);
    *state >> 33
}

fn unruly_output(state: &mut u64, len: usize) -> Vec<u8> {
    let finals = b"ABCDEFGHJKLMPSTXZ@`abcdefghilmnpqrstux";
    let mut out = Vec::new();
    while out.len() < len {
        match next_number(state) % 8 {
            0 => out.push((next_number(state) % 256) as u8),
            1 => out.extend_from_slice("\u{4e2d}\u{301}\u{17d8}\u{1f600}\t".as_bytes()),
            2 => out.extend_from_slice(b"\r\n"),
            3 | 4 | 5 => {
                out.extend_from_slice(b"\x1b[");
                if next_number(state) % 4 == 0 {
                    out.push(b'?');
                }
                let count = next_number(state) % 4;
                for i in 0..count {
                    if i > 0 {
                        out.push(b';');
                    }
                    let value = match next_number(state) % 5 {
                        0 => 0,
                        1 => 1,
                        2 => next_number(state) % 10,
                        3 => next_number(state) % 300,
                        _ => u64::MAX / 3,
                    };
                    out.extend_from_slice(value.to_string().as_bytes());
                }
                out.push(finals[(next_number(state) % finals.len() as u64) as usize]);
            }
            6 => {
                out.push(0x1b);
                out.push(b"78DEHM=>c"[(next_number(state) % 9) as usize]);
            }
            _ => out.push(b' ' + (next_number(state) % 95) as u8),
        }
    }
    out
}

fn take_unruly_output(rows: u16, cols: u16, rounds: usize, state: &mut u64) {
    for _ in 0..rounds {
        let mut screen = ScreenModel::new(rows, cols);
        screen.process(&unruly_output(state, 200));
        assert_eq!(screen.size(), (rows, cols));
        let (row, col) = screen.cursor_position();
        assert!(row < rows);
        assert!(col <= cols);
        assert!(screen.cell(rows - 1, cols - 1).is_some());
        assert!(screen.cell(rows, 0).is_none());
    }
}

#[test]
fn unruly_output_is_taken_without_failure_on_grids_of_every_shape() {
    let mut state = 2024u64;
    for (rows, cols) in [(2u16, 3u16), (3, 3), (2, 4), (2, 80), (24, 3), (5, 7), (24, 80)] {
        take_unruly_output(rows, cols, 12, &mut state);
    }
}

#[test]
fn unruly_output_is_taken_without_failure_on_the_widest_grid() {
    let mut state = 4048u64;
    take_unruly_output(2, 65527, 2, &mut state);
}
