//! The line-oriented shell that runs as the child: what a line of input
//! asks for, and the texts that its commands report.

use crate::command::{parse_line, Command, CommandError, CommandView};
use crate::text::{
    chars_of, contains, contains_chars, decimal, ends_with, octal, push_decimal_u64,
    push_decimal_wide, push_octal, same_text, string_of, trim, trimmed,
};
use vstd::prelude::*;
use vstd::string::StringExecFns;

verus! {

/// What the shell does with a line of input.
#[derive(Clone, Debug, PartialEq, Eq)]
pub enum LineAction {
    /// Nothing: the line is blank.
    Skip,
    /// Show the list of commands.
    Help,
    /// Run the command.
    Run(Command),
    /// Report that the line is no command.
    Reject(CommandError),
}

/// A line action as a mathematical value.
pub enum LineActionView {
    Skip,
    Help,
    Run(CommandView),
    Reject(CommandError),
}

impl View for LineAction {
    type V = LineActionView;

    open spec fn view(&self) -> LineActionView {
        match *self {
            LineAction::Skip => LineActionView::Skip,
            LineAction::Help => LineActionView::Help,
            LineAction::Run(c) => LineActionView::Run(c@),
            LineAction::Reject(e) => LineActionView::Reject(e),
        }
    }
}

/// What a line asks for, white space at its ends aside: nothing where
/// nothing is left, the help for the word `help`, and else the command
/// that the grammar reads, or its error.
pub open spec fn line_action(line: Seq<char>) -> LineActionView {
    if trim(line).len() == 0 {
        LineActionView::Skip
    } else if trim(line) == "help"@ {
        LineActionView::Help
    } else {
        match parse_line(trim(line)) {
            Ok(c) => LineActionView::Run(c),
            Err(e) => LineActionView::Reject(e),
        }
    }
}

/// Decides what to do with a line of input.
pub fn read_line(line: &str) -> (action: LineAction)
    ensures
        action@ == line_action(line@),
{
    let text = trimmed(line);
    if text.as_str().is_empty() {
        LineAction::Skip
    } else if same_text(text.as_str(), "help") {
        LineAction::Help
    } else {
        match Command::try_from(text.as_str()) {
            Ok(c) => LineAction::Run(c),
            Err(e) => LineAction::Reject(e),
        }
    }
}

/// Whether the shell ends after `command`: it does after `exit` alone.
pub fn ends_session(command: &Command) -> (ends: bool)
    ensures
        ends == (command@ is Exit),
{
    match command {
        Command::Exit => true,
        _ => false,
    }
}

/// The mood of a notice, which decides its colour.
#[derive(Clone, Copy, Debug, PartialEq, Eq, Structural)]
pub enum Tone {
    /// Something was made or brought up to date.
    Made,
    /// Something was removed.
    Removed,
    /// Something was moved.
    Moved,
}

/// What the shell says after a command has done its work.
#[derive(Clone, Debug, PartialEq, Eq)]
pub struct Notice {
    pub tone: Tone,
    /// What was done.
    pub label: String,
    /// What it was done to.
    pub detail: String,
}

/// A notice as a mathematical value.
pub struct NoticeView {
    pub tone: Tone,
    pub label: Seq<char>,
    pub detail: Seq<char>,
}

impl View for Notice {
    type V = NoticeView;

    open spec fn view(&self) -> NoticeView {
        NoticeView { tone: self.tone, label: self.label@, detail: self.detail@ }
    }
}

/// The view of a notice that may be absent.
pub open spec fn notice_view(notice: Option<Notice>) -> Option<NoticeView> {
    match notice {
        Some(n) => Some(n@),
        None => None,
    }
}

/// Two names in quotes with an arrow from the first to the second.
pub open spec fn arrow_text(from: Seq<char>, to: Seq<char>) -> Seq<char> {
    seq!['\''] + from + seq!['\'', ' ', '\u{2192}', ' ', '\''] + to + seq!['\'']
}

/// The notice for a command that changes the file system; the commands
/// that only show something have none. A link is shown from its own name
/// to its target.
pub open spec fn notice_of(command: CommandView) -> Option<NoticeView> {
    match command {
        CommandView::Touch(s) => Some(
            NoticeView { tone: Tone::Made, label: "Created/Updated:"@, detail: s },
        ),
        CommandView::Rm(s) => Some(NoticeView { tone: Tone::Removed, label: "Removed:"@, detail: s }),
        CommandView::Mkdir(s) => Some(
            NoticeView { tone: Tone::Made, label: "Directory created:"@, detail: s },
        ),
        CommandView::MkdirP(s) => Some(
            NoticeView { tone: Tone::Made, label: "Directory hierarchy created:"@, detail: s },
        ),
        CommandView::Rmdir(s) => Some(
            NoticeView { tone: Tone::Removed, label: "Directory removed:"@, detail: s },
        ),
        CommandView::RmdirR(s) => Some(
            NoticeView { tone: Tone::Removed, label: "Directory and contents removed:"@, detail: s },
        ),
        CommandView::Cp(a, b) => Some(
            NoticeView { tone: Tone::Made, label: "Copied:"@, detail: arrow_text(a, b) },
        ),
        CommandView::CpR(a, b) => Some(
            NoticeView { tone: Tone::Made, label: "Recursively copied:"@, detail: arrow_text(a, b) },
        ),
        CommandView::Mv(a, b) => Some(
            NoticeView { tone: Tone::Moved, label: "Moved:"@, detail: arrow_text(a, b) },
        ),
        CommandView::Ln(target, link) => Some(
            NoticeView {
                tone: Tone::Made,
                label: "Created symbolic link:"@,
                detail: arrow_text(link, target),
            },
        ),
        _ => None,
    }
}

/// Two names in quotes with an arrow from the first to the second.
fn arrow(from: &str, to: &str) -> (text: String)
    ensures
        text@ == arrow_text(from@, to@),
{
    let mut text = String::new();
    text.push('\'');
    text.append(from);
    text.push('\'');
    text.push(' ');
    text.push('\u{2192}');
    text.push(' ');
    text.push('\'');
    text.append(to);
    text.push('\'');
    assert(text@ =~= arrow_text(from@, to@));
    text
}

/// A notice with the given label.
fn notice(tone: Tone, label: &str, detail: String) -> (n: Option<Notice>)
    ensures
        notice_view(n) == Some(NoticeView { tone, label: label@, detail: detail@ }),
{
    Some(Notice { tone, label: String::from_str(label), detail })
}

/// The notice to show after `command` has done its work, if it has one.
pub fn notice_for(command: &Command) -> (n: Option<Notice>)
    ensures
        notice_view(n) == notice_of(command@),
{
    match command {
        Command::Touch(s) => notice(Tone::Made, "Created/Updated:", s.clone()),
        Command::Rm(s) => notice(Tone::Removed, "Removed:", s.clone()),
        Command::Mkdir(s) => notice(Tone::Made, "Directory created:", s.clone()),
        Command::MkdirP(s) => notice(Tone::Made, "Directory hierarchy created:", s.clone()),
        Command::Rmdir(s) => notice(Tone::Removed, "Directory removed:", s.clone()),
        Command::RmdirR(s) => notice(Tone::Removed, "Directory and contents removed:", s.clone()),
        Command::Cp(a, b) => notice(Tone::Made, "Copied:", arrow(a.as_str(), b.as_str())),
        Command::CpR(a, b) => notice(
            Tone::Made,
            "Recursively copied:",
            arrow(a.as_str(), b.as_str()),
        ),
        Command::Mv(a, b) => notice(Tone::Moved, "Moved:", arrow(a.as_str(), b.as_str())),
        Command::Ln(target, link) => notice(
            Tone::Made,
            "Created symbolic link:",
            arrow(link.as_str(), target.as_str()),
        ),
        _ => None,
    }
}

/// How a directory entry is listed.
#[derive(Clone, Copy, Debug, PartialEq, Eq, Structural)]
pub enum EntryKind {
    Directory,
    /// A file that somebody may execute.
    Executable,
    /// A file of source code or documentation, by its name.
    Source,
    Plain,
}

/// The permission bits that let owner, group or others execute a file.
pub const EXECUTE_BITS: u32 = 0o111;

/// Whether a name is that of source code or documentation: it ends with
/// `.rs`, `.toml`, `.json` or `.md`.
pub open spec fn is_source_name(name: Seq<char>) -> bool {
    ".rs"@.is_suffix_of(name) || ".toml"@.is_suffix_of(name) || ".json"@.is_suffix_of(name)
        || ".md"@.is_suffix_of(name)
}

/// The kind of an entry: a directory is one whatever its mode and name, an
/// executable file is one whatever its name.
pub open spec fn kind_of_entry(is_dir: bool, mode: u32, name: Seq<char>) -> EntryKind {
    if is_dir {
        EntryKind::Directory
    } else if mode & EXECUTE_BITS != 0 {
        EntryKind::Executable
    } else if is_source_name(name) {
        EntryKind::Source
    } else {
        EntryKind::Plain
    }
}

/// Decides how a directory entry is listed.
pub fn entry_kind(is_dir: bool, mode: u32, name: &str) -> (kind: EntryKind)
    ensures
        kind == kind_of_entry(is_dir, mode, name@),
{
    if is_dir {
        EntryKind::Directory
    } else if mode & EXECUTE_BITS != 0 {
        EntryKind::Executable
    } else {
        let chars = chars_of(name);
        if ends_with(&chars, ".rs") || ends_with(&chars, ".toml") || ends_with(&chars, ".json")
            || ends_with(&chars, ".md") {
            EntryKind::Source
        } else {
            EntryKind::Plain
        }
    }
}

/// The type column of the detailed listing.
#[derive(Clone, Copy, Debug, PartialEq, Eq, Structural)]
pub enum FileType {
    Directory,
    File,
    /// Neither directory nor regular file.
    Link,
}

impl FileType {
    /// The type of an entry that is or is not a directory, and is or is
    /// not a regular file.
    pub fn of(is_dir: bool, is_file: bool) -> (t: FileType)
        ensures
            t == if is_dir {
                FileType::Directory
            } else if is_file {
                FileType::File
            } else {
                FileType::Link
            },
    {
        if is_dir {
            FileType::Directory
        } else if is_file {
            FileType::File
        } else {
            FileType::Link
        }
    }

    /// The label of the type, four characters wide.
    pub open spec fn label_text(self) -> Seq<char> {
        match self {
            FileType::Directory => "DIR "@,
            FileType::File => "FILE"@,
            FileType::Link => "LINK"@,
        }
    }

    /// The label of the type.
    pub fn label(&self) -> (text: String)
        ensures
            text@ == self.label_text(),
    {
        let text: &str = match *self {
            FileType::Directory => "DIR ",
            FileType::File => "FILE",
            FileType::Link => "LINK",
        };
        String::from_str(text)
    }
}

/// `letter` where `mode` has the bit `bit`, and a dash where it has not.
pub open spec fn permission_char(mode: u32, bit: u32, letter: char) -> char {
    if mode & bit != 0 {
        letter
    } else {
        '-'
    }
}

/// The nine permission characters of `mode`: read, write and execute for
/// the owner, for the group and for others.
pub open spec fn permission_chars(mode: u32) -> Seq<char> {
    seq![
        permission_char(mode, 0o400, 'r'),
        permission_char(mode, 0o200, 'w'),
        permission_char(mode, 0o100, 'x'),
        permission_char(mode, 0o040, 'r'),
        permission_char(mode, 0o020, 'w'),
        permission_char(mode, 0o010, 'x'),
        permission_char(mode, 0o004, 'r'),
        permission_char(mode, 0o002, 'w'),
        permission_char(mode, 0o001, 'x'),
    ]
}

/// Appends the permission character for one bit.
fn push_permission(text: &mut String, mode: u32, bit: u32, letter: char)
    ensures
        final(text)@ == old(text)@.push(permission_char(mode, bit, letter)),
{
    if mode & bit != 0 {
        text.push(letter);
    } else {
        text.push('-');
    }
}

/// The nine permission characters of `mode`.
pub fn permission_text(mode: u32) -> (text: String)
    ensures
        text@ == permission_chars(mode),
{
    let mut text = String::new();
    push_permission(&mut text, mode, 0o400, 'r');
    push_permission(&mut text, mode, 0o200, 'w');
    push_permission(&mut text, mode, 0o100, 'x');
    push_permission(&mut text, mode, 0o040, 'r');
    push_permission(&mut text, mode, 0o020, 'w');
    push_permission(&mut text, mode, 0o010, 'x');
    push_permission(&mut text, mode, 0o004, 'r');
    push_permission(&mut text, mode, 0o002, 'w');
    push_permission(&mut text, mode, 0o001, 'x');
    assert(text@ =~= permission_chars(mode));
    text
}

/// The unit in which a size is shown.
#[derive(Clone, Copy, Debug, PartialEq, Eq, Structural)]
pub enum SizeUnit {
    Bytes,
    Kilobytes,
    Megabytes,
    Gigabytes,
}

impl SizeUnit {
    /// The unit for a size: the largest of which the size holds at least
    /// one, gigabytes at most.
    pub open spec fn for_size(size: u64) -> SizeUnit {
        if size < 1024 {
            SizeUnit::Bytes
        } else if size < 1024 * 1024 {
            SizeUnit::Kilobytes
        } else if size < 1024 * 1024 * 1024 {
            SizeUnit::Megabytes
        } else {
            SizeUnit::Gigabytes
        }
    }

    /// The unit for a size.
    pub fn of(size: u64) -> (unit: SizeUnit)
        ensures
            unit == SizeUnit::for_size(size),
    {
        if size < 1024 {
            SizeUnit::Bytes
        } else if size < 1024 * 1024 {
            SizeUnit::Kilobytes
        } else if size < 1024 * 1024 * 1024 {
            SizeUnit::Megabytes
        } else {
            SizeUnit::Gigabytes
        }
    }

    /// The number of bytes in one unit.
    pub fn bytes(&self) -> (n: u64)
        ensures
            n == match *self {
                SizeUnit::Bytes => 1u64,
                SizeUnit::Kilobytes => 1024u64,
                SizeUnit::Megabytes => 1048576u64,
                SizeUnit::Gigabytes => 1073741824u64,
            },
    {
        match *self {
            SizeUnit::Bytes => 1,
            SizeUnit::Kilobytes => 1024,
            SizeUnit::Megabytes => 1048576,
            SizeUnit::Gigabytes => 1073741824,
        }
    }

    /// The abbreviation of the unit.
    pub open spec fn label_text(self) -> Seq<char> {
        match self {
            SizeUnit::Bytes => "B"@,
            SizeUnit::Kilobytes => "KB"@,
            SizeUnit::Megabytes => "MB"@,
            SizeUnit::Gigabytes => "GB"@,
        }
    }

    /// The abbreviation of the unit.
    pub fn label(&self) -> (text: String)
        ensures
            text@ == self.label_text(),
    {
        let text: &str = match *self {
            SizeUnit::Bytes => "B",
            SizeUnit::Kilobytes => "KB",
            SizeUnit::Megabytes => "MB",
            SizeUnit::Gigabytes => "GB",
        };
        String::from_str(text)
    }
}

/// The date and time, in UTC, of the moment `seconds` seconds after the
/// start of 1970, written as year, month, day, hour, minute and second, or
/// nothing where the calendar of `chrono` does not reach that far.
pub uninterp spec fn utc_text(seconds: i64) -> Option<Seq<char>>;

/// The view of a string that may be absent.
pub open spec fn text_view(text: Option<String>) -> Option<Seq<char>> {
    match text {
        Some(t) => Some(t@),
        None => None,
    }
}

/// `chrono::DateTime::<Utc>::from_timestamp` with no nanoseconds, and
/// `format` with the pattern year-month-day hour:minute:second: the text
/// depends on the seconds alone.
#[verifier::external_body]
fn utc_timestamp(seconds: i64) -> (text: Option<String>)
    ensures
        text_view(text) == utc_text(seconds),
{
    match chrono::DateTime::<chrono::Utc>::from_timestamp(seconds, 0) {
        Some(moment) => Some(moment.format("%Y-%m-%d %H:%M:%S").to_string()),
        None => None,
    }
}

/// The text for a moment that may have none.
pub open spec fn text_or_unknown(text: Option<Seq<char>>) -> Seq<char> {
    match text {
        Some(t) => t,
        None => "Unknown"@,
    }
}

/// The text for a moment: the given one, or `Unknown` where there is
/// none.
pub fn timestamp_or_unknown(text: Option<String>) -> (shown: String)
    ensures
        shown@ == text_or_unknown(text_view(text)),
{
    match text {
        Some(t) => t,
        None => String::from_str("Unknown"),
    }
}

/// The text for the moment `seconds` seconds after the start of 1970:
/// its date and time in UTC, or `Unknown` where the count is beyond what
/// the calendar holds.
pub open spec fn timestamp_text(seconds: u64) -> Seq<char> {
    if seconds > i64::MAX {
        "Unknown"@
    } else {
        text_or_unknown(utc_text(seconds as i64))
    }
}

/// The text for the moment `seconds` seconds after the start of 1970.
pub fn format_timestamp(seconds: u64) -> (shown: String)
    ensures
        shown@ == timestamp_text(seconds),
{
    if seconds > i64::MAX as u64 {
        String::from_str("Unknown")
    } else {
        timestamp_or_unknown(utc_timestamp(seconds as i64))
    }
}

/// What `stat` calls a file.
#[derive(Clone, Copy, Debug, PartialEq, Eq, Structural)]
pub enum StatKind {
    RegularFile,
    Directory,
    Special,
}

impl StatKind {
    /// The kind of a file that is or is not a regular file, and is or is
    /// not a directory.
    pub fn of(is_file: bool, is_dir: bool) -> (kind: StatKind)
        ensures
            kind == if is_file {
                StatKind::RegularFile
            } else if is_dir {
                StatKind::Directory
            } else {
                StatKind::Special
            },
    {
        if is_file {
            StatKind::RegularFile
        } else if is_dir {
            StatKind::Directory
        } else {
            StatKind::Special
        }
    }

    /// The name of the kind.
    pub open spec fn name_text(self) -> Seq<char> {
        match self {
            StatKind::RegularFile => "Regular File"@,
            StatKind::Directory => "Directory"@,
            StatKind::Special => "Special File"@,
        }
    }
}

/// The times of a file, each in seconds after the start of 1970, or
/// nothing where the system does not tell.
#[derive(Clone, Copy, Debug, PartialEq, Eq, Structural)]
pub struct FileTimes {
    pub created: Option<u64>,
    pub modified: Option<u64>,
    pub accessed: Option<u64>,
}

/// The permission bits of a mode, without the file type and the special
/// bits.
pub const PERMISSION_BITS: u32 = 0o777;

/// One line of the report for a time: the label and the text of the
/// moment, or nothing where the time is not known.
pub open spec fn time_line(label: Seq<char>, seconds: Option<u64>) -> Seq<char> {
    match seconds {
        Some(s) => label + timestamp_text(s) + seq!['\n'],
        None => Seq::empty(),
    }
}

/// The report of `stat`: the path, the size in bytes, the kind, the
/// permission bits in octal, and a line for each time that is known.
pub open spec fn stat_text(
    path: Seq<char>,
    size: u64,
    kind: StatKind,
    mode: u32,
    times: FileTimes,
) -> Seq<char> {
    "File: "@ + path + seq!['\n'] + "Size: "@ + decimal(size as nat) + " bytes\n"@ + "Type: "@
        + kind.name_text() + seq!['\n'] + "Permissions: "@ + octal((mode & PERMISSION_BITS) as nat)
        + seq!['\n'] + time_line("Created: "@, times.created) + time_line(
        "Modified: "@,
        times.modified,
    ) + time_line("Accessed: "@, times.accessed)
}

/// Appends the line of the report for a time.
fn push_time_line(report: &mut String, label: &str, seconds: Option<u64>)
    ensures
        final(report)@ == old(report)@ + time_line(label@, seconds),
{
    match seconds {
        Some(s) => {
            let shown = format_timestamp(s);
            report.append(label);
            report.append(shown.as_str());
            report.push('\n');
            assert(report@ =~= old(report)@ + time_line(label@, seconds));
        },
        None => {
            assert(report@ =~= old(report)@ + time_line(label@, seconds));
        },
    }
}

/// Writes the report of `stat`.
pub fn stat_report(path: &str, size: u64, kind: StatKind, mode: u32, times: FileTimes) -> (report:
    String)
    ensures
        report@ == stat_text(path@, size, kind, mode, times),
{
    let mut report = String::from_str("File: ");
    report.append(path);
    report.push('\n');
    report.append("Size: ");
    push_decimal_u64(&mut report, size);
    report.append(" bytes\n");
    report.append("Type: ");
    let name: &str = match kind {
        StatKind::RegularFile => "Regular File",
        StatKind::Directory => "Directory",
        StatKind::Special => "Special File",
    };
    report.append(name);
    report.push('\n');
    report.append("Permissions: ");
    push_octal(&mut report, mode & PERMISSION_BITS);
    report.push('\n');
    let ghost head = report@;
    assert(head =~= "File: "@ + path@ + seq!['\n'] + "Size: "@ + decimal(size as nat)
        + " bytes\n"@ + "Type: "@ + kind.name_text() + seq!['\n'] + "Permissions: "@ + octal(
        (mode & PERMISSION_BITS) as nat,
    ) + seq!['\n']);
    push_time_line(&mut report, "Created: ", times.created);
    push_time_line(&mut report, "Modified: ", times.modified);
    push_time_line(&mut report, "Accessed: ", times.accessed);
    report
}

/// The end of the line that starts at `i`: the first index from `i` on
/// that holds a line feed, or the length of `s`.
pub open spec fn line_end(s: Seq<char>, i: int) -> int
    decreases s.len() - i,
{
    if i < 0 || i >= s.len() || s[i] == '\n' {
        i
    } else {
        line_end(s, i + 1)
    }
}

/// The line from `from` to its end `end`, without its line ending: a line
/// that a line feed ends loses a carriage return before the line feed.
pub open spec fn line_body(s: Seq<char>, from: int, end: int) -> Seq<char> {
    if end < s.len() && from < end && s[end - 1] == '\r' {
        s.subrange(from, end - 1)
    } else {
        s.subrange(from, end)
    }
}

/// What `grep` reports for one line: its number, a colon, the line and a
/// line feed where the pattern stands in the line, and nothing where it
/// does not.
pub open spec fn match_line(number: nat, line: Seq<char>, pattern: Seq<char>) -> Seq<char> {
    if contains(line, pattern) {
        decimal(number) + seq![':'] + line + seq!['\n']
    } else {
        Seq::empty()
    }
}

/// What `grep` reports for the lines of `s` that start at `i` or later,
/// the line at `i` being line `number`.
pub open spec fn matches_from(s: Seq<char>, pattern: Seq<char>, i: int, number: nat) -> Seq<char>
    decreases s.len() - i,
{
    if i < 0 || i >= s.len() {
        Seq::empty()
    } else {
        proof {
            lemma_line_end_bounds(s, i);
        }
        match_line(number, line_body(s, i, line_end(s, i)), pattern) + if line_end(s, i)
            < s.len() {
            matches_from(s, pattern, line_end(s, i) + 1, number + 1)
        } else {
            Seq::empty()
        }
    }
}

/// What `grep` reports for a file with the content `content`: each line
/// that holds the pattern, with its number, counted from one. Lines end
/// with a line feed, or with a carriage return and a line feed; the last
/// line needs no ending.
pub open spec fn grep_text(content: Seq<char>, pattern: Seq<char>) -> Seq<char> {
    matches_from(content, pattern, 0, 1)
}

/// The line that starts at `i` ends at `i` or later, and within `s`.
pub proof fn lemma_line_end_bounds(s: Seq<char>, i: int)
    requires
        0 <= i <= s.len(),
    ensures
        i <= line_end(s, i) <= s.len(),
        line_end(s, i) < s.len() ==> s[line_end(s, i)] == '\n',
        forall|j: int| i <= j < line_end(s, i) ==> s[j] != '\n',
    decreases s.len() - i,
{
    if i < s.len() && s[i] != '\n' {
        lemma_line_end_bounds(s, i + 1);
    }
}

/// Searches the content of a file for a pattern and reports the lines
/// that hold it.
pub fn grep_lines(content: &str, pattern: &str) -> (report: String)
    ensures
        report@ == grep_text(content@, pattern@),
{
    let text = chars_of(content);
    let wanted = chars_of(pattern);
    let mut report = String::new();
    let mut i: usize = 0;
    let mut number: u128 = 1;
    assert(report@ + matches_from(text@, wanted@, 0, 1) =~= grep_text(content@, pattern@));
    while i < text.len()
        invariant
            i <= text.len(),
            text@ == content@,
            wanted@ == pattern@,
            1 <= number <= i + 1,
            report@ + matches_from(text@, wanted@, i as int, number as nat) == grep_text(
                content@,
                pattern@,
            ),
        decreases text.len() - i,
    {
        let mut end: usize = i;
        while end < text.len() && text[end] != '\n'
            invariant
                i <= end <= text.len(),
                line_end(text@, i as int) == line_end(text@, end as int),
            decreases text.len() - end,
        {
            end += 1;
        }
        assert(line_end(text@, i as int) == end);
        let stop: usize = if end < text.len() && i < end && text[end - 1] == '\r' {
            (end - 1) as usize
        } else {
            end
        };
        let line_chars = string_of(&text, i, stop);
        assert(line_chars@ == line_body(text@, i as int, end as int));
        let line = chars_of(line_chars.as_str());
        let ghost before = report@;
        if contains_chars(&line, &wanted) {
            push_decimal_wide(&mut report, number);
            report.push(':');
            report.append(line_chars.as_str());
            report.push('\n');
        }
        assert(report@ =~= before + match_line(number as nat, line@, wanted@));
        if end < text.len() {
            proof {
                let rest = matches_from(text@, wanted@, end + 1, number as nat + 1);
                assert(before + (match_line(number as nat, line@, wanted@) + rest) =~= (before
                    + match_line(number as nat, line@, wanted@)) + rest);
            }
            i = end + 1;
            number = number + 1;
        } else {
            proof {
                let rest = Seq::<char>::empty();
                assert(before + (match_line(number as nat, line@, wanted@) + rest) =~= (before
                    + match_line(number as nat, line@, wanted@)) + matches_from(
                    text@,
                    wanted@,
                    end as int,
                    number as nat,
                ));
            }
            i = end;
        }
    }
    assert(report@ + matches_from(text@, wanted@, i as int, number as nat) =~= report@);
    report
}

/// Whether `find` reports a file of the name `name` for `pattern`: the
/// pattern stands somewhere in the name.
pub fn name_matches(name: &str, pattern: &str) -> (matches: bool)
    ensures
        matches == contains(name@, pattern@),
{
    crate::text::contains_text(name, pattern)
}

/// A name that may be missing, as the prompt shows it.
pub open spec fn name_or_tilde(name: Option<Seq<char>>) -> Seq<char> {
    match name {
        Some(n) => n,
        None => seq!['~'],
    }
}

/// Where the prompt says the shell is: the name of the parent directory, a
/// slash, and the name of the working directory, with `~` for a name that
/// the path does not have.
pub fn prompt_location(parent: Option<&str>, dir: Option<&str>) -> (location: String)
    ensures
        location@ == name_or_tilde(
            match parent {
                Some(p) => Some(p@),
                None => None,
            },
        ) + seq!['/'] + name_or_tilde(
            match dir {
                Some(d) => Some(d@),
                None => None,
            },
        ),
{
    let mut location = String::new();
    match parent {
        Some(p) => {
            location.append(p);
        },
        None => {
            location.push('~');
        },
    }
    location.push('/');
    match dir {
        Some(d) => {
            location.append(d);
        },
        None => {
            location.push('~');
        },
    }
    assert(location@ =~= name_or_tilde(
        match parent {
            Some(p) => Some(p@),
            None => None,
        },
    ) + seq!['/'] + name_or_tilde(
        match dir {
            Some(d) => Some(d@),
            None => None,
        },
    ));
    location
}

} // verus!
