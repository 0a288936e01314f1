use shell_terminal::text::{chars_of, is_whitespace_char, push_decimal, same_text, split_words};

#[test]
fn chars_come_out_in_order() {
    assert_eq!(chars_of(""), Vec::<char>::new());
    assert_eq!(chars_of("a\u{e9}\u{1f600}z"), vec!['a', '\u{e9}', '\u{1f600}', 'z']);
}

#[test]
fn same_text_compares_by_characters() {
    assert!(same_text("", ""));
    assert!(same_text("exit", "exit"));
    assert!(!same_text("exit", "exi"));
    assert!(!same_text("exit", "exiT"));
    assert!(!same_text("a", ""));
}

#[test]
fn white_space_is_what_the_standard_library_calls_so() {
    for code in 0u32..0x11_0000 {
        if let Some(c) = char::from_u32(code) {
            assert_eq!(is_whitespace_char(c), c.is_whitespace(), "U+{:04X}", code);
        }
    }
}

#[test]
fn words_are_the_runs_between_white_space() {
    assert_eq!(split_words(""), Vec::<String>::new());
    assert_eq!(split_words(" \t\n"), Vec::<String>::new());
    assert_eq!(split_words("one"), vec!["one".to_string()]);
    assert_eq!(
        split_words("  one two\tthree\n"),
        vec!["one".to_string(), "two".to_string(), "three".to_string()]
    );
}

#[test]
fn decimal_numerals() {
    for (n, text) in [(0u16, "0"), (7, "7"), (10, "10"), (99, "99"), (100, "100"), (4096, "4096"), (65535, "65535")] {
        let mut s = String::from("n=");
        push_decimal(&mut s, n);
        assert_eq!(s, format!("n={}", text));
    }
}

#[test]
fn decimal_numerals_agree_with_formatting() {
    for n in 0..=u16::MAX {
        let mut s = String::new();
        push_decimal(&mut s, n);
        assert_eq!(s, n.to_string());
    }
}
