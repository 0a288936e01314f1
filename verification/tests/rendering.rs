use shell_terminal::color::Color;
use shell_terminal::draw::DrawOp;
use shell_terminal::renderer::{debug_echo, TerminalRenderer};

fn print(text: &str) -> DrawOp {
    DrawOp::Print(text.to_string())
}

fn blanks(n: usize) -> Vec<DrawOp> {
    vec![print(" "); n]
}

const LEGEND: &str = " Ctrl+Q: Quit | Ctrl+B: Toggle Status Bar | ";

/// Checks that no colour instruction names the colour that is set already.
fn assert_colours_set_only_on_change(frame: &[DrawOp]) {
    let mut fg: Option<Color> = None;
    let mut bg: Option<Color> = None;
    for (i, op) in frame.iter().enumerate() {
        match op {
            DrawOp::SetForeground(c) => {
                assert_ne!(fg, Some(*c), "foreground set again at {}", i);
                fg = Some(*c);
            }
            DrawOp::SetBackground(c) => {
                assert_ne!(bg, Some(*c), "background set again at {}", i);
                bg = Some(*c);
            }
            DrawOp::ResetColor => {
                fg = None;
                bg = None;
            }
            _ => {}
        }
    }
}

fn count_foreground_changes(frame: &[DrawOp]) -> usize {
    frame.iter().filter(|op| matches!(op, DrawOp::SetForeground(_))).count()
}

#[test]
fn a_new_renderer() {
    let renderer = TerminalRenderer::new(80, 24);
    assert_eq!(renderer.window_size(), (80, 24));
    assert_eq!(renderer.screen_size(), (22, 80));
    assert_eq!(renderer.title(), "Shell Terminal");
    assert!(renderer.status_bar_shown());
    assert!(!renderer.raw_mode());
}

#[test]
fn the_content_height_is_the_height_less_the_chrome() {
    for (height, with_bar, without_bar) in
        [(0u16, 0u16, 0u16), (1, 0, 0), (2, 0, 1), (3, 1, 2), (24, 22, 23), (u16::MAX, 65533, 65534)]
    {
        let mut renderer = TerminalRenderer::new(2, height);
        assert_eq!(renderer.screen_size(), (with_bar, 2));
        renderer.toggle_status_bar();
        assert_eq!(renderer.screen_size(), (without_bar, 2));
    }
}

#[test]
fn set_title_changes_the_title_only() {
    let mut renderer = TerminalRenderer::new(20, 5);
    renderer.process_output(b"abc");
    renderer.set_title("Terminal - ~/work".to_string());
    assert_eq!(renderer.title(), "Terminal - ~/work");
    assert_eq!(renderer.window_size(), (20, 5));
    assert_eq!(renderer.screen().cell(0, 1).unwrap().text, "b");
}

#[test]
fn toggling_the_status_bar_resizes_the_screen_and_clears_it() {
    let mut renderer = TerminalRenderer::new(20, 5);
    renderer.process_output(b"abc");
    renderer.toggle_status_bar();
    assert!(!renderer.status_bar_shown());
    assert_eq!(renderer.screen_size(), (4, 20));
    assert_eq!(renderer.screen().cell(0, 0).unwrap().text, "");
    renderer.toggle_status_bar();
    assert!(renderer.status_bar_shown());
    assert_eq!(renderer.screen_size(), (3, 20));
}

#[test]
fn toggling_the_debug_echo_reinitialises_the_screen() {
    let mut renderer = TerminalRenderer::new(20, 5);
    renderer.process_output(b"abc");
    renderer.toggle_raw_mode();
    assert!(renderer.raw_mode());
    assert_eq!(renderer.screen_size(), (3, 20));
    assert_eq!(renderer.screen().cell(0, 0).unwrap().text, "");
    assert_eq!(renderer.screen().cursor_position(), (0, 0));
    renderer.toggle_raw_mode();
    assert!(!renderer.raw_mode());
}

#[test]
fn resize_from_80_by_24_to_100_by_40() {
    let mut renderer = TerminalRenderer::new(80, 24);
    renderer.set_title("kept".to_string());
    renderer.process_output(b"old content");
    renderer.resize(100, 40);
    assert_eq!(renderer.window_size(), (100, 40));
    assert_eq!(renderer.screen_size(), (38, 100));
    assert_eq!(renderer.screen().size(), (38, 100));
    assert_eq!(renderer.screen().cell(0, 0).unwrap().text, "");
    assert_eq!(renderer.title(), "kept");
    assert!(renderer.status_bar_shown());
}

#[test]
fn resize_keeps_the_flags() {
    let mut renderer = TerminalRenderer::new(80, 24);
    renderer.toggle_status_bar();
    renderer.toggle_raw_mode();
    renderer.resize(100, 40);
    assert!(!renderer.status_bar_shown());
    assert!(renderer.raw_mode());
    assert_eq!(renderer.screen_size(), (39, 100));
}

#[test]
fn process_output_feeds_the_screen() {
    let mut renderer = TerminalRenderer::new(80, 24);
    assert_eq!(renderer.process_output(b"hi\r\nthere"), None);
    assert_eq!(renderer.screen().cell(0, 0).unwrap().text, "h");
    assert_eq!(renderer.screen().cell(1, 4).unwrap().text, "e");
    assert_eq!(renderer.screen().cursor_position(), (1, 5));
}

#[test]
fn the_debug_echo_makes_control_bytes_visible() {
    let mut renderer = TerminalRenderer::new(80, 24);
    renderer.toggle_raw_mode();
    let echo = renderer.process_output(b"\x1b[31mA\r\n\x00\x7f");
    assert_eq!(echo, Some("Raw data: ^[[31mA^M^J^@^\u{bf}".to_string()));
    assert_eq!(renderer.screen().cell(0, 0).unwrap().text, "A");
}

#[test]
fn the_debug_echo_of_each_kind_of_byte() {
    assert_eq!(debug_echo(b""), "Raw data: ");
    assert_eq!(debug_echo(&[0]), "Raw data: ^@");
    assert_eq!(debug_echo(&[31]), "Raw data: ^_");
    assert_eq!(debug_echo(&[32]), "Raw data:  ");
    assert_eq!(debug_echo(&[126]), "Raw data: ~");
    assert_eq!(debug_echo(&[127]), "Raw data: ^\u{bf}");
    assert_eq!(debug_echo(&[128]), "Raw data: \u{80}");
    assert_eq!(debug_echo(&[255]), "Raw data: \u{ff}");
}

#[test]
fn the_whole_frame_of_a_small_window() {
    let mut renderer = TerminalRenderer::new(10, 4);
    renderer.set_title("T".to_string());
    let mut expected = vec![
        DrawOp::Clear,
        DrawOp::MoveTo(0, 0),
        DrawOp::SetBackground(Color::DarkBlue),
        DrawOp::SetForeground(Color::White),
    ];
    expected.extend(blanks(10));
    expected.push(DrawOp::MoveTo(0, 0));
    expected.extend(blanks(3));
    expected.push(print(" T "));
    expected.push(DrawOp::ResetColor);
    expected.push(DrawOp::MoveTo(0, 1));
    expected.push(DrawOp::SetForeground(Color::Reset));
    expected.push(DrawOp::SetBackground(Color::Reset));
    expected.extend(blanks(10));
    expected.push(DrawOp::MoveTo(0, 2));
    expected.extend(blanks(10));
    expected.push(DrawOp::ResetColor);
    expected.push(DrawOp::MoveTo(0, 3));
    expected.push(DrawOp::SetBackground(Color::DarkGrey));
    expected.push(DrawOp::SetForeground(Color::White));
    expected.extend(blanks(10));
    expected.push(DrawOp::MoveTo(0, 3));
    expected.push(print(" Ctrl+Q: Quit | Ctrl+B: Toggle Status Bar | 12:34:56"));
    expected.push(DrawOp::MoveTo(5, 3));
    expected.push(print("10x4 "));
    expected.push(DrawOp::ResetColor);
    expected.push(DrawOp::MoveTo(0, 1));
    assert_eq!(renderer.render_at("12:34:56"), expected);
}

#[test]
fn a_frame_without_status_bar() {
    let mut renderer = TerminalRenderer::new(4, 3);
    renderer.set_title(String::new());
    renderer.toggle_status_bar();
    renderer.process_output(b"ab");
    let mut expected = vec![
        DrawOp::Clear,
        DrawOp::MoveTo(0, 0),
        DrawOp::SetBackground(Color::DarkBlue),
        DrawOp::SetForeground(Color::White),
    ];
    expected.extend(blanks(4));
    expected.push(DrawOp::MoveTo(0, 0));
    expected.extend(blanks(1));
    expected.push(print("  "));
    expected.push(DrawOp::ResetColor);
    expected.push(DrawOp::MoveTo(0, 1));
    expected.push(DrawOp::SetForeground(Color::Reset));
    expected.push(DrawOp::SetBackground(Color::Reset));
    expected.push(print("a"));
    expected.push(print("b"));
    expected.extend(blanks(2));
    expected.push(DrawOp::MoveTo(0, 2));
    expected.extend(blanks(4));
    expected.push(DrawOp::ResetColor);
    expected.push(DrawOp::MoveTo(2, 1));
    assert_eq!(renderer.render_at("00:00:00"), expected);
}

#[test]
fn the_title_is_centred_by_its_length_in_bytes() {
    let mut renderer = TerminalRenderer::new(20, 3);
    renderer.set_title("caf\u{e9}".to_string());
    let frame = renderer.render_at("");
    // the label " café " takes 7 bytes: (20 - 7) / 2 = 6 blanks before it
    assert_eq!(frame[4..24], blanks(20)[..]);
    assert_eq!(frame[24], DrawOp::MoveTo(0, 0));
    assert_eq!(frame[25..31], blanks(6)[..]);
    assert_eq!(frame[31], print(" caf\u{e9} "));
    assert_eq!(frame[32], DrawOp::ResetColor);
}

#[test]
fn a_title_wider_than_the_window_starts_at_the_left_edge() {
    let mut renderer = TerminalRenderer::new(5, 3);
    renderer.set_title("a long title".to_string());
    let frame = renderer.render_at("");
    assert_eq!(frame[9], DrawOp::MoveTo(0, 0));
    assert_eq!(frame[10], print(" a long title "));
    assert_eq!(frame[11], DrawOp::ResetColor);
}

#[test]
fn the_size_label_ends_at_the_right_edge() {
    let renderer = TerminalRenderer::new(100, 40);
    let frame = renderer.render_at("09:08:07");
    let n = frame.len();
    assert_eq!(frame[n - 1], DrawOp::MoveTo(0, 1));
    assert_eq!(frame[n - 2], DrawOp::ResetColor);
    assert_eq!(frame[n - 3], print("100x40 "));
    assert_eq!(frame[n - 4], DrawOp::MoveTo(93, 39));
    assert_eq!(frame[n - 5], print(&format!("{}09:08:07", LEGEND)));
    assert_eq!(frame[n - 6], DrawOp::MoveTo(0, 39));
}

#[test]
fn a_size_label_wider_than_the_window_starts_at_the_left_edge() {
    let renderer = TerminalRenderer::new(3, 3);
    let frame = renderer.render_at("");
    let n = frame.len();
    assert_eq!(frame[n - 3], print("3x3 "));
    assert_eq!(frame[n - 4], DrawOp::MoveTo(0, 2));
}

#[test]
fn a_content_area_of_one_row_is_drawn_blank() {
    let mut renderer = TerminalRenderer::new(3, 3);
    renderer.set_title(String::new());
    assert_eq!(renderer.process_output(b"abc"), None);
    assert_eq!(renderer.screen_size(), (1, 3));
    assert_eq!(renderer.screen().cell(0, 0), None);
    let frame = renderer.render_at("");
    let start = frame.iter().position(|op| *op == DrawOp::MoveTo(0, 1)).unwrap();
    let mut expected = vec![DrawOp::MoveTo(0, 1)];
    expected.extend(blanks(3));
    expected.push(DrawOp::ResetColor);
    expected.push(DrawOp::MoveTo(0, 2));
    assert_eq!(frame[start..start + expected.len()], expected[..]);
    assert_eq!(frame[frame.len() - 1], DrawOp::MoveTo(0, 1));
}

#[test]
fn a_window_without_rows_has_a_title_bar_and_a_cursor_only() {
    let renderer = TerminalRenderer::new(2, 0);
    let frame = renderer.render_at("12:00:00");
    let mut expected = vec![
        DrawOp::Clear,
        DrawOp::MoveTo(0, 0),
        DrawOp::SetBackground(Color::DarkBlue),
        DrawOp::SetForeground(Color::White),
    ];
    expected.extend(blanks(2));
    expected.push(DrawOp::MoveTo(0, 0));
    expected.push(print(" Shell Terminal "));
    expected.push(DrawOp::ResetColor);
    expected.push(DrawOp::ResetColor);
    expected.push(DrawOp::MoveTo(0, 1));
    assert_eq!(frame, expected);
}

#[test]
fn the_cursor_is_placed_one_row_below_the_screen_cursor() {
    let mut renderer = TerminalRenderer::new(80, 24);
    renderer.process_output(b"\x1b[31mHELLO \x1b[0m\r\nab");
    let frame = renderer.render_at("");
    assert_eq!(frame[frame.len() - 1], DrawOp::MoveTo(2, 2));
    renderer.process_output(b"\x1b[10;20H");
    let frame = renderer.render_at("");
    assert_eq!(frame[frame.len() - 1], DrawOp::MoveTo(19, 10));
}

#[test]
fn a_colour_is_set_once_for_a_run_of_cells_of_that_colour() {
    let mut renderer = TerminalRenderer::new(12, 3);
    renderer.toggle_status_bar();
    renderer.process_output(b"\x1b[31mAB\x1b[32mC\x1b[31mD\x1b[0m");
    let frame = renderer.render_at("");
    let start = frame.iter().position(|op| *op == DrawOp::MoveTo(0, 1)).unwrap();
    let expected_row = vec![
        DrawOp::MoveTo(0, 1),
        DrawOp::SetForeground(Color::DarkRed),
        DrawOp::SetBackground(Color::Reset),
        print("A"),
        print("B"),
        DrawOp::SetForeground(Color::DarkGreen),
        print("C"),
        DrawOp::SetForeground(Color::DarkRed),
        print("D"),
        DrawOp::SetForeground(Color::Reset),
        print(" "),
    ];
    assert_eq!(frame[start..start + expected_row.len()], expected_row[..]);
    assert_colours_set_only_on_change(&frame);
    // title bar: 1, content: 4, none in the second row
    assert_eq!(count_foreground_changes(&frame), 5);
}

#[test]
fn the_colour_carries_over_from_one_row_to_the_next() {
    let mut renderer = TerminalRenderer::new(3, 4);
    renderer.process_output(b"\x1b[44;33mabcdef");
    let frame = renderer.render_at("");
    let start = frame.iter().position(|op| *op == DrawOp::MoveTo(0, 1)).unwrap();
    let expected = vec![
        DrawOp::MoveTo(0, 1),
        DrawOp::SetForeground(Color::DarkYellow),
        DrawOp::SetBackground(Color::DarkBlue),
        print("a"),
        print("b"),
        print("c"),
        DrawOp::MoveTo(0, 2),
        print("d"),
        print("e"),
        print("f"),
        DrawOp::ResetColor,
    ];
    assert_eq!(frame[start..start + expected.len()], expected[..]);
    assert_colours_set_only_on_change(&frame);
}

#[test]
fn frames_of_many_screens_set_colours_only_on_change() {
    let outputs: [&[u8]; 5] = [
        b"",
        b"plain text only\r\nsecond line",
        b"\x1b[31mr\x1b[31mr\x1b[1mR\x1b[0m \x1b[31mr",
        b"\x1b[38;5;4mx\x1b[34my\x1b[38;2;36;36;36ma\x1b[38;5;16mb",
        b"\x1b[41m \x1b[42m \x1b[41m \x1b[0m\r\n\x1b[7minverse\x1b[0m",
    ];
    for output in outputs {
        for with_bar in [true, false] {
            let mut renderer = TerminalRenderer::new(16, 5);
            if !with_bar {
                renderer.toggle_status_bar();
            }
            renderer.process_output(output);
            assert_colours_set_only_on_change(&renderer.render_at("23:59:59"));
        }
    }
}

#[test]
fn two_palette_entries_with_one_device_colour_are_not_set_twice() {
    // entry 4 and "dark blue" are one device colour; so are entry 16 and RGB 36,36,36
    let mut renderer = TerminalRenderer::new(8, 4);
    renderer.process_output(b"\x1b[38;2;36;36;36ma\x1b[38;5;16mb");
    let frame = renderer.render_at("");
    let start = frame.iter().position(|op| *op == DrawOp::MoveTo(0, 1)).unwrap();
    assert_eq!(frame[start + 1], DrawOp::SetForeground(Color::Rgb { r: 36, g: 36, b: 36 }));
    assert_eq!(frame[start + 3], print("a"));
    assert_eq!(frame[start + 4], print("b"));
}

#[test]
fn render_shows_the_time_of_day() {
    let renderer = TerminalRenderer::new(80, 24);
    let frame = renderer.render();
    let n = frame.len();
    let legend = match &frame[n - 5] {
        DrawOp::Print(text) => text.clone(),
        other => panic!("expected the legend, found {:?}", other),
    };
    assert!(legend.starts_with(LEGEND));
    let clock: Vec<char> = legend[LEGEND.len()..].chars().collect();
    assert_eq!(clock.len(), 8);
    for (i, c) in clock.iter().enumerate() {
        if i == 2 || i == 5 {
            assert_eq!(*c, ':');
        } else {
            assert!(c.is_ascii_digit());
        }
    }
    let with_that_clock = renderer.render_at(&legend[LEGEND.len()..]);
    assert_eq!(frame, with_that_clock);
}
