use shell_terminal::command::{Command, CommandError, Verb};
use shell_terminal::shell::{
    ends_session, entry_kind, format_timestamp, grep_lines, name_matches, notice_for,
    permission_text, prompt_location, read_line, stat_report, timestamp_or_unknown, EntryKind,
    FileTimes, FileType, LineAction, Notice, SizeUnit, StatKind, Tone,
};
use shell_terminal::text::{contains_text, push_octal, trimmed};

#[test]
fn a_blank_line_is_skipped() {
    assert_eq!(read_line(""), LineAction::Skip);
    assert_eq!(read_line("  \t \r\n"), LineAction::Skip);
}

#[test]
fn help_is_asked_for_by_the_word_alone() {
    assert_eq!(read_line("help"), LineAction::Help);
    assert_eq!(read_line("  help\n"), LineAction::Help);
    assert_eq!(read_line("help me"), LineAction::Reject(CommandError::Unknown));
    assert_eq!(read_line("Help"), LineAction::Reject(CommandError::Unknown));
}

#[test]
fn a_command_line_is_run_or_rejected() {
    assert_eq!(read_line(" ls -l \n"), LineAction::Run(Command::LsDetailed));
    assert_eq!(read_line("echo  a  b"), LineAction::Run(Command::Echo("a b".to_string())));
    assert_eq!(read_line("exit"), LineAction::Run(Command::Exit));
    assert_eq!(read_line("cd"), LineAction::Reject(CommandError::MissingArgument(Verb::Cd)));
    assert_eq!(read_line("nonsense"), LineAction::Reject(CommandError::Unknown));
}

#[test]
fn only_exit_ends_the_session() {
    assert!(ends_session(&Command::Exit));
    assert!(!ends_session(&Command::Ls));
    assert!(!ends_session(&Command::Echo("exit".to_string())));
}

#[test]
fn trimming_agrees_with_the_standard_library() {
    for text in ["", " ", "a", " a", "a ", "  a b  ", "\t\n a\u{a0}b \u{3000}\r\n", "\u{2003}x\u{85}"] {
        assert_eq!(trimmed(text), text.trim());
    }
}

#[test]
fn entries_by_kind() {
    assert_eq!(entry_kind(true, 0o755, "src"), EntryKind::Directory);
    assert_eq!(entry_kind(true, 0o644, "notes.md"), EntryKind::Directory);
    assert_eq!(entry_kind(false, 0o755, "run.rs"), EntryKind::Executable);
    assert_eq!(entry_kind(false, 0o100, "a"), EntryKind::Executable);
    assert_eq!(entry_kind(false, 0o010, "a"), EntryKind::Executable);
    assert_eq!(entry_kind(false, 0o001, "a"), EntryKind::Executable);
    assert_eq!(entry_kind(false, 0o100644, "main.rs"), EntryKind::Source);
    assert_eq!(entry_kind(false, 0o644, "Cargo.toml"), EntryKind::Source);
    assert_eq!(entry_kind(false, 0o644, "data.json"), EntryKind::Source);
    assert_eq!(entry_kind(false, 0o644, "README.md"), EntryKind::Source);
    assert_eq!(entry_kind(false, 0o644, ".md"), EntryKind::Source);
    assert_eq!(entry_kind(false, 0o644, "md"), EntryKind::Plain);
    assert_eq!(entry_kind(false, 0o644, "main.rs.bak"), EntryKind::Plain);
    assert_eq!(entry_kind(false, 0o666, "notes.txt"), EntryKind::Plain);
    assert_eq!(entry_kind(false, 0, ""), EntryKind::Plain);
}

#[test]
fn file_types_and_their_labels() {
    assert_eq!(FileType::of(true, false), FileType::Directory);
    assert_eq!(FileType::of(true, true), FileType::Directory);
    assert_eq!(FileType::of(false, true), FileType::File);
    assert_eq!(FileType::of(false, false), FileType::Link);
    assert_eq!(FileType::Directory.label(), "DIR ");
    assert_eq!(FileType::File.label(), "FILE");
    assert_eq!(FileType::Link.label(), "LINK");
}

#[test]
fn permissions_as_nine_characters() {
    assert_eq!(permission_text(0o755), "rwxr-xr-x");
    assert_eq!(permission_text(0o644), "rw-r--r--");
    assert_eq!(permission_text(0o000), "---------");
    assert_eq!(permission_text(0o777), "rwxrwxrwx");
    assert_eq!(permission_text(0o100600), "rw-------");
    assert_eq!(permission_text(0o421), "r---w---x");
    assert_eq!(permission_text(0o4000), "---------");
}

#[test]
fn size_units() {
    assert_eq!(SizeUnit::of(0), SizeUnit::Bytes);
    assert_eq!(SizeUnit::of(1023), SizeUnit::Bytes);
    assert_eq!(SizeUnit::of(1024), SizeUnit::Kilobytes);
    assert_eq!(SizeUnit::of(1024 * 1024 - 1), SizeUnit::Kilobytes);
    assert_eq!(SizeUnit::of(1024 * 1024), SizeUnit::Megabytes);
    assert_eq!(SizeUnit::of(1024 * 1024 * 1024 - 1), SizeUnit::Megabytes);
    assert_eq!(SizeUnit::of(1024 * 1024 * 1024), SizeUnit::Gigabytes);
    assert_eq!(SizeUnit::of(u64::MAX), SizeUnit::Gigabytes);
    assert_eq!(SizeUnit::Bytes.bytes(), 1);
    assert_eq!(SizeUnit::Kilobytes.bytes(), 1024);
    assert_eq!(SizeUnit::Megabytes.bytes(), 1024 * 1024);
    assert_eq!(SizeUnit::Gigabytes.bytes(), 1024 * 1024 * 1024);
    assert_eq!(SizeUnit::Bytes.label(), "B");
    assert_eq!(SizeUnit::Kilobytes.label(), "KB");
    assert_eq!(SizeUnit::Megabytes.label(), "MB");
    assert_eq!(SizeUnit::Gigabytes.label(), "GB");
}

#[test]
fn timestamps_in_utc() {
    assert_eq!(format_timestamp(0), "1970-01-01 00:00:00");
    assert_eq!(format_timestamp(86399), "1970-01-01 23:59:59");
    assert_eq!(format_timestamp(951782400), "2000-02-29 00:00:00");
    assert_eq!(format_timestamp(1700000000), "2023-11-14 22:13:20");
    assert_eq!(format_timestamp(4102444800), "2100-01-01 00:00:00");
}

#[test]
fn timestamps_beyond_the_calendar_are_unknown() {
    assert_eq!(format_timestamp(i64::MAX as u64), "Unknown");
    assert_eq!(format_timestamp(i64::MAX as u64 + 1), "Unknown");
    assert_eq!(format_timestamp(u64::MAX), "Unknown");
    assert_eq!(timestamp_or_unknown(None), "Unknown");
    assert_eq!(timestamp_or_unknown(Some("2001-02-03 04:05:06".to_string())), "2001-02-03 04:05:06");
}

#[test]
fn timestamps_agree_with_chrono() {
    for seconds in [1u64, 59, 60, 3600, 1_000_000_000, 1_234_567_890, 2_000_000_000, 253_402_300_799] {
        let expected = chrono::DateTime::<chrono::Utc>::from_timestamp(seconds as i64, 0)
            .map(|moment| moment.format("%Y-%m-%d %H:%M:%S").to_string())
            .unwrap();
        assert_eq!(format_timestamp(seconds), expected);
    }
}

#[test]
fn the_report_of_stat() {
    let times = FileTimes { created: Some(0), modified: Some(1700000000), accessed: None };
    assert_eq!(
        stat_report("notes.txt", 1234, StatKind::RegularFile, 0o100644, times),
        "File: notes.txt\nSize: 1234 bytes\nType: Regular File\nPermissions: 644\n\
         Created: 1970-01-01 00:00:00\nModified: 2023-11-14 22:13:20\n"
    );
    let none = FileTimes { created: None, modified: None, accessed: None };
    assert_eq!(
        stat_report("/", 0, StatKind::Directory, 0o40755, none),
        "File: /\nSize: 0 bytes\nType: Directory\nPermissions: 755\n"
    );
    let late = FileTimes { created: None, modified: None, accessed: Some(u64::MAX) };
    assert_eq!(
        stat_report("dev", u64::MAX, StatKind::Special, 0, late),
        "File: dev\nSize: 18446744073709551615 bytes\nType: Special File\nPermissions: 0\n\
         Accessed: Unknown\n"
    );
}

#[test]
fn the_kinds_of_stat() {
    assert_eq!(StatKind::of(true, false), StatKind::RegularFile);
    assert_eq!(StatKind::of(true, true), StatKind::RegularFile);
    assert_eq!(StatKind::of(false, true), StatKind::Directory);
    assert_eq!(StatKind::of(false, false), StatKind::Special);
}

#[test]
fn octal_numerals_agree_with_formatting() {
    for n in [0u32, 1, 7, 8, 0o17, 0o644, 0o755, 0o777, 0o100644, u32::MAX] {
        let mut s = String::new();
        push_octal(&mut s, n);
        assert_eq!(s, format!("{:o}", n));
    }
}

fn grep_by_the_standard_library(content: &str, pattern: &str) -> String {
    let mut result = String::new();
    for (i, line) in content.lines().enumerate() {
        if line.contains(pattern) {
            result.push_str(&format!("{}:{}\n", i + 1, line));
        }
    }
    result
}

#[test]
fn grep_reports_the_lines_that_hold_the_pattern() {
    assert_eq!(grep_lines("alpha\nbeta\ngamma\n", "a"), "1:alpha\n2:beta\n3:gamma\n");
    assert_eq!(grep_lines("alpha\nbeta\ngamma", "mm"), "3:gamma\n");
    assert_eq!(grep_lines("alpha\nbeta\ngamma", "z"), "");
    assert_eq!(grep_lines("", "a"), "");
    assert_eq!(grep_lines("", ""), "");
    assert_eq!(grep_lines("\n", ""), "1:\n");
    assert_eq!(grep_lines("a\r\nb\rc\r\n", "b"), "2:b\rc\n");
    assert_eq!(grep_lines("x\r", "x"), "1:x\r\n");
    assert_eq!(grep_lines("x\r\n", "\r"), "");
}

#[test]
fn grep_agrees_with_the_standard_library() {
    let contents = [
        "",
        "\n",
        "\n\n",
        "one",
        "one\n",
        "one\r\n",
        "one\r",
        "\r\n\r\n",
        "\r\r\n",
        "a\n\nb\n\n",
        "needle\nhay\nneedles and needle\nhay needle",
        "caf\u{e9} au lait\nth\u{e9}\n\u{4e2d}\u{6587}\r\nend",
        "ab\nabab\nba\naab\n",
    ];
    let patterns = ["", "a", "ab", "needle", "\u{e9}", "\r", "\n", "one", "zzz", "abab"];
    for content in contents {
        for pattern in patterns {
            assert_eq!(
                grep_lines(content, pattern),
                grep_by_the_standard_library(content, pattern),
                "content {:?} pattern {:?}",
                content,
                pattern
            );
        }
    }
}

#[test]
fn grep_counts_lines_past_the_first_ten() {
    let content: String = (1..=12).map(|i| format!("line {}\n", i)).collect();
    assert_eq!(grep_lines(&content, "1"), "1:line 1\n10:line 10\n11:line 11\n12:line 12\n");
}

#[test]
fn containment_agrees_with_the_standard_library() {
    for text in ["", "a", "abc", "aaa", "abcabc", "x\u{e9}y"] {
        for pattern in ["", "a", "b", "c", "bc", "abc", "abcd", "aa", "ca", "\u{e9}y", "d"] {
            assert_eq!(contains_text(text, pattern), text.contains(pattern), "{:?} {:?}", text, pattern);
            assert_eq!(name_matches(text, pattern), text.contains(pattern));
        }
    }
}

#[test]
fn the_location_in_the_prompt() {
    assert_eq!(prompt_location(Some("home"), Some("ann")), "home/ann");
    assert_eq!(prompt_location(None, Some("home")), "~/home");
    assert_eq!(prompt_location(None, None), "~/~");
    assert_eq!(prompt_location(Some("a"), None), "a/~");
}

fn notice(tone: Tone, label: &str, detail: &str) -> Option<Notice> {
    Some(Notice { tone, label: label.to_string(), detail: detail.to_string() })
}

#[test]
fn notices_after_commands_that_change_the_file_system() {
    let a = || "a".to_string();
    let b = || "b c".to_string();
    assert_eq!(notice_for(&Command::Touch(a())), notice(Tone::Made, "Created/Updated:", "a"));
    assert_eq!(notice_for(&Command::Rm(a())), notice(Tone::Removed, "Removed:", "a"));
    assert_eq!(notice_for(&Command::Mkdir(b())), notice(Tone::Made, "Directory created:", "b c"));
    assert_eq!(
        notice_for(&Command::MkdirP(a())),
        notice(Tone::Made, "Directory hierarchy created:", "a")
    );
    assert_eq!(notice_for(&Command::Rmdir(a())), notice(Tone::Removed, "Directory removed:", "a"));
    assert_eq!(
        notice_for(&Command::RmdirR(a())),
        notice(Tone::Removed, "Directory and contents removed:", "a")
    );
    assert_eq!(
        notice_for(&Command::Cp(a(), b())),
        notice(Tone::Made, "Copied:", "'a' \u{2192} 'b c'")
    );
    assert_eq!(
        notice_for(&Command::CpR(a(), b())),
        notice(Tone::Made, "Recursively copied:", "'a' \u{2192} 'b c'")
    );
    assert_eq!(notice_for(&Command::Mv(a(), b())), notice(Tone::Moved, "Moved:", "'a' \u{2192} 'b c'"));
    assert_eq!(
        notice_for(&Command::Ln("target".to_string(), "link".to_string())),
        notice(Tone::Made, "Created symbolic link:", "'link' \u{2192} 'target'")
    );
}

#[test]
fn commands_that_only_show_something_have_no_notice() {
    for command in [
        Command::Exit,
        Command::Ls,
        Command::LsDetailed,
        Command::Pwd,
        Command::Echo("x".to_string()),
        Command::Cd("x".to_string()),
        Command::Cat("x".to_string()),
        Command::Stat("x".to_string()),
        Command::Find("x".to_string(), "y".to_string()),
        Command::Grep("x".to_string(), "y".to_string()),
    ] {
        assert_eq!(notice_for(&command), None);
    }
}
