//! The commands of the line-oriented shell and the grammar of a command
//! line.

use crate::text::{join_from, join_words, same_text, split_words, views, words};
use vstd::prelude::*;
use vstd::string::StringExecFns;

verus! {

/// A command of the shell, with its arguments.
#[derive(Clone, Debug, PartialEq, Eq)]
pub enum Command {
    Exit,
    Echo(String),
    Ls,
    LsDetailed,
    Pwd,
    Cd(String),
    Touch(String),
    Rm(String),
    Cat(String),
    Mkdir(String),
    MkdirP(String),
    Rmdir(String),
    RmdirR(String),
    Cp(String, String),
    CpR(String, String),
    Mv(String, String),
    Stat(String),
    Find(String, String),
    Grep(String, String),
    Ln(String, String),
}

/// A command as a mathematical value: each argument as its characters.
pub enum CommandView {
    Exit,
    Echo(Seq<char>),
    Ls,
    LsDetailed,
    Pwd,
    Cd(Seq<char>),
    Touch(Seq<char>),
    Rm(Seq<char>),
    Cat(Seq<char>),
    Mkdir(Seq<char>),
    MkdirP(Seq<char>),
    Rmdir(Seq<char>),
    RmdirR(Seq<char>),
    Cp(Seq<char>, Seq<char>),
    CpR(Seq<char>, Seq<char>),
    Mv(Seq<char>, Seq<char>),
    Stat(Seq<char>),
    Find(Seq<char>, Seq<char>),
    Grep(Seq<char>, Seq<char>),
    Ln(Seq<char>, Seq<char>),
}

impl View for Command {
    type V = CommandView;

    open spec fn view(&self) -> CommandView {
        match *self {
            Command::Exit => CommandView::Exit,
            Command::Echo(a) => CommandView::Echo(a@),
            Command::Ls => CommandView::Ls,
            Command::LsDetailed => CommandView::LsDetailed,
            Command::Pwd => CommandView::Pwd,
            Command::Cd(a) => CommandView::Cd(a@),
            Command::Touch(a) => CommandView::Touch(a@),
            Command::Rm(a) => CommandView::Rm(a@),
            Command::Cat(a) => CommandView::Cat(a@),
            Command::Mkdir(a) => CommandView::Mkdir(a@),
            Command::MkdirP(a) => CommandView::MkdirP(a@),
            Command::Rmdir(a) => CommandView::Rmdir(a@),
            Command::RmdirR(a) => CommandView::RmdirR(a@),
            Command::Cp(a, b) => CommandView::Cp(a@, b@),
            Command::CpR(a, b) => CommandView::CpR(a@, b@),
            Command::Mv(a, b) => CommandView::Mv(a@, b@),
            Command::Stat(a) => CommandView::Stat(a@),
            Command::Find(a, b) => CommandView::Find(a@, b@),
            Command::Grep(a, b) => CommandView::Grep(a@, b@),
            Command::Ln(a, b) => CommandView::Ln(a@, b@),
        }
    }
}

/// The first word of a command that needs arguments.
#[derive(Clone, Copy, Debug, PartialEq, Eq, Structural)]
pub enum Verb {
    Echo,
    Cd,
    Touch,
    Rm,
    Cat,
    Mkdir,
    Rmdir,
    Cp,
    Mv,
    Stat,
    Find,
    Grep,
    Ln,
}

/// Why a line is no command.
#[derive(Clone, Copy, Debug, PartialEq, Eq, Structural)]
pub enum CommandError {
    /// The line holds no word.
    Empty,
    /// The command has fewer arguments than it needs.
    MissingArgument(Verb),
    /// The first word names no command.
    Unknown,
}

impl CommandError {
    /// The text of the error message.
    pub open spec fn message_text(self) -> Seq<char> {
        match self {
            CommandError::Empty => "Empty command"@,
            CommandError::Unknown => "Unknown command"@,
            CommandError::MissingArgument(verb) => match verb {
                Verb::Echo => "echo command requires an argument"@,
                Verb::Cd => "cd command requires an argument"@,
                Verb::Touch => "touch command requires an argument"@,
                Verb::Rm => "rm command requires an argument"@,
                Verb::Cat => "cat command requires an argument"@,
                Verb::Mkdir => "mkdir command requires an argument"@,
                Verb::Rmdir => "rmdir command requires an argument"@,
                Verb::Cp => "cp command requires source and destination arguments"@,
                Verb::Mv => "mv command requires source and destination arguments"@,
                Verb::Stat => "stat command requires a file path"@,
                Verb::Find => "find command requires directory and pattern arguments"@,
                Verb::Grep => "grep command requires file and pattern arguments"@,
                Verb::Ln => "ln command requires target and link name arguments"@,
            },
        }
    }

    /// The error message, for display.
    pub fn message(&self) -> (text: String)
        ensures
            text@ == self.message_text(),
    {
        let text: &str = match *self {
            CommandError::Empty => "Empty command",
            CommandError::Unknown => "Unknown command",
            CommandError::MissingArgument(verb) => match verb {
                Verb::Echo => "echo command requires an argument",
                Verb::Cd => "cd command requires an argument",
                Verb::Touch => "touch command requires an argument",
                Verb::Rm => "rm command requires an argument",
                Verb::Cat => "cat command requires an argument",
                Verb::Mkdir => "mkdir command requires an argument",
                Verb::Rmdir => "rmdir command requires an argument",
                Verb::Cp => "cp command requires source and destination arguments",
                Verb::Mv => "mv command requires source and destination arguments",
                Verb::Stat => "stat command requires a file path",
                Verb::Find => "find command requires directory and pattern arguments",
                Verb::Grep => "grep command requires file and pattern arguments",
                Verb::Ln => "ln command requires target and link name arguments",
            },
        };
        String::from_str(text)
    }
}

/// A command that takes the rest of the line as its one argument: the
/// words from index 1 on, joined by single spaces. With fewer than two
/// words the argument is missing.
pub open spec fn rest_of_line(
    ws: Seq<Seq<char>>,
    verb: Verb,
    make: spec_fn(Seq<char>) -> CommandView,
) -> Result<CommandView, CommandError> {
    if ws.len() < 2 {
        Err(CommandError::MissingArgument(verb))
    } else {
        Ok(make(join_words(ws.skip(1))))
    }
}

/// As `rest_of_line`, for a command with a flag: where more than two words
/// are there and the second is `flag`, the argument starts at the third
/// word and `flagged` builds the command.
pub open spec fn rest_of_line_with_flag(
    ws: Seq<Seq<char>>,
    verb: Verb,
    flag: Seq<char>,
    flagged: spec_fn(Seq<char>) -> CommandView,
    plain: spec_fn(Seq<char>) -> CommandView,
) -> Result<CommandView, CommandError> {
    if ws.len() < 2 {
        Err(CommandError::MissingArgument(verb))
    } else if ws.len() > 2 && ws[1] == flag {
        Ok(flagged(join_words(ws.skip(2))))
    } else {
        Ok(plain(join_words(ws.skip(1))))
    }
}

/// A command that takes its second and third word as its two arguments and
/// ignores further words. With fewer than three words arguments are
/// missing.
pub open spec fn two_words(
    ws: Seq<Seq<char>>,
    verb: Verb,
    make: spec_fn(Seq<char>, Seq<char>) -> CommandView,
) -> Result<CommandView, CommandError> {
    if ws.len() < 3 {
        Err(CommandError::MissingArgument(verb))
    } else {
        Ok(make(ws[1], ws[2]))
    }
}

/// The grammar, over the words of a line. The first word selects the
/// command. `ls` becomes the detailed listing where its second word is
/// `-l`. `mkdir -p`, `rmdir -r` and `cp -r` are commands of their own where
/// an argument follows the flag, and else the flag is an argument.
pub open spec fn parse_words(ws: Seq<Seq<char>>) -> Result<CommandView, CommandError> {
    if ws.len() == 0 {
        Err(CommandError::Empty)
    } else if ws[0] == "exit"@ {
        Ok(CommandView::Exit)
    } else if ws[0] == "ls"@ {
        if ws.len() > 1 && ws[1] == "-l"@ {
            Ok(CommandView::LsDetailed)
        } else {
            Ok(CommandView::Ls)
        }
    } else if ws[0] == "echo"@ {
        rest_of_line(ws, Verb::Echo, |a: Seq<char>| CommandView::Echo(a))
    } else if ws[0] == "pwd"@ {
        Ok(CommandView::Pwd)
    } else if ws[0] == "cd"@ {
        rest_of_line(ws, Verb::Cd, |a: Seq<char>| CommandView::Cd(a))
    } else if ws[0] == "touch"@ {
        rest_of_line(ws, Verb::Touch, |a: Seq<char>| CommandView::Touch(a))
    } else if ws[0] == "rm"@ {
        rest_of_line(ws, Verb::Rm, |a: Seq<char>| CommandView::Rm(a))
    } else if ws[0] == "cat"@ {
        rest_of_line(ws, Verb::Cat, |a: Seq<char>| CommandView::Cat(a))
    } else if ws[0] == "mkdir"@ {
        rest_of_line_with_flag(
            ws,
            Verb::Mkdir,
            "-p"@,
            |a: Seq<char>| CommandView::MkdirP(a),
            |a: Seq<char>| CommandView::Mkdir(a),
        )
    } else if ws[0] == "rmdir"@ {
        rest_of_line_with_flag(
            ws,
            Verb::Rmdir,
            "-r"@,
            |a: Seq<char>| CommandView::RmdirR(a),
            |a: Seq<char>| CommandView::Rmdir(a),
        )
    } else if ws[0] == "cp"@ {
        if ws.len() < 3 {
            Err(CommandError::MissingArgument(Verb::Cp))
        } else if ws.len() > 3 && ws[1] == "-r"@ {
            Ok(CommandView::CpR(ws[2], ws[3]))
        } else {
            Ok(CommandView::Cp(ws[1], ws[2]))
        }
    } else if ws[0] == "mv"@ {
        two_words(ws, Verb::Mv, |a: Seq<char>, b: Seq<char>| CommandView::Mv(a, b))
    } else if ws[0] == "stat"@ {
        rest_of_line(ws, Verb::Stat, |a: Seq<char>| CommandView::Stat(a))
    } else if ws[0] == "find"@ {
        two_words(ws, Verb::Find, |a: Seq<char>, b: Seq<char>| CommandView::Find(a, b))
    } else if ws[0] == "grep"@ {
        two_words(ws, Verb::Grep, |a: Seq<char>, b: Seq<char>| CommandView::Grep(a, b))
    } else if ws[0] == "ln"@ {
        two_words(ws, Verb::Ln, |a: Seq<char>, b: Seq<char>| CommandView::Ln(a, b))
    } else {
        Err(CommandError::Unknown)
    }
}

/// The command that a line stands for, or the reason why it stands for
/// none: the grammar applied to the words of the line.
pub open spec fn parse_line(line: Seq<char>) -> Result<CommandView, CommandError> {
    parse_words(words(line))
}

/// Whether `result` is the outcome `expected`, each argument compared by
/// its characters.
pub open spec fn is_outcome(
    result: Result<Command, CommandError>,
    expected: Result<CommandView, CommandError>,
) -> bool {
    match expected {
        Ok(v) => result matches Ok(c) && c@ == v,
        Err(e) => result == Err::<Command, CommandError>(e),
    }
}

/// The words of `ws` from index `from` on as one argument, or the error
/// for `verb` where `ws` has fewer than two words.
fn joined_argument(ws: &Vec<String>, from: usize, verb: Verb) -> (r: Result<String, CommandError>)
    requires
        1 <= from <= 2,
        from == 2 ==> ws.len() > 2,
    ensures
        ws.len() < 2 ==> r == Err::<String, CommandError>(CommandError::MissingArgument(verb)),
        ws.len() >= 2 ==> (r matches Ok(a) && a@ == join_words(views(ws@).skip(from as int))),
{
    if ws.len() < 2 {
        Err(CommandError::MissingArgument(verb))
    } else {
        Ok(join_from(ws, from))
    }
}

/// The second and third word of `ws`, or the error for `verb` where `ws`
/// has fewer than three words.
fn word_pair(ws: &Vec<String>, verb: Verb) -> (r: Result<(String, String), CommandError>)
    ensures
        ws.len() < 3 ==> r == Err::<(String, String), CommandError>(
            CommandError::MissingArgument(verb),
        ),
        ws.len() >= 3 ==> (r matches Ok(p) && p.0@ == views(ws@)[1] && p.1@ == views(ws@)[2]),
{
    if ws.len() < 3 {
        Err(CommandError::MissingArgument(verb))
    } else {
        Ok((ws[1].clone(), ws[2].clone()))
    }
}

impl Command {
    /// Reads a command from a line of input.
    pub fn try_from(value: &str) -> (result: Result<Command, CommandError>)
        ensures
            is_outcome(result, parse_line(value@)),
    {
        let ws = split_words(value);
        let ghost w = views(ws@);
        if ws.len() == 0 {
            return Err(CommandError::Empty);
        }
        let head: &str = ws[0].as_str();
        assert(head@ == w[0]);
        if same_text(head, "exit") {
            Ok(Command::Exit)
        } else if same_text(head, "ls") {
            if ws.len() > 1 && same_text(ws[1].as_str(), "-l") {
                Ok(Command::LsDetailed)
            } else {
                Ok(Command::Ls)
            }
        } else if same_text(head, "echo") {
            match joined_argument(&ws, 1, Verb::Echo) {
                Ok(a) => Ok(Command::Echo(a)),
                Err(e) => Err(e),
            }
        } else if same_text(head, "pwd") {
            Ok(Command::Pwd)
        } else if same_text(head, "cd") {
            match joined_argument(&ws, 1, Verb::Cd) {
                Ok(a) => Ok(Command::Cd(a)),
                Err(e) => Err(e),
            }
        } else if same_text(head, "touch") {
            match joined_argument(&ws, 1, Verb::Touch) {
                Ok(a) => Ok(Command::Touch(a)),
                Err(e) => Err(e),
            }
        } else if same_text(head, "rm") {
            match joined_argument(&ws, 1, Verb::Rm) {
                Ok(a) => Ok(Command::Rm(a)),
                Err(e) => Err(e),
            }
        } else if same_text(head, "cat") {
            match joined_argument(&ws, 1, Verb::Cat) {
                Ok(a) => Ok(Command::Cat(a)),
                Err(e) => Err(e),
            }
        } else if same_text(head, "mkdir") {
            if ws.len() > 2 && same_text(ws[1].as_str(), "-p") {
                Ok(Command::MkdirP(join_from(&ws, 2)))
            } else {
                match joined_argument(&ws, 1, Verb::Mkdir) {
                    Ok(a) => Ok(Command::Mkdir(a)),
                    Err(e) => Err(e),
                }
            }
        } else if same_text(head, "rmdir") {
            if ws.len() > 2 && same_text(ws[1].as_str(), "-r") {
                Ok(Command::RmdirR(join_from(&ws, 2)))
            } else {
                match joined_argument(&ws, 1, Verb::Rmdir) {
                    Ok(a) => Ok(Command::Rmdir(a)),
                    Err(e) => Err(e),
                }
            }
        } else if same_text(head, "cp") {
            if ws.len() > 3 && same_text(ws[1].as_str(), "-r") {
                Ok(Command::CpR(ws[2].clone(), ws[3].clone()))
            } else {
                match word_pair(&ws, Verb::Cp) {
                    Ok((a, b)) => Ok(Command::Cp(a, b)),
                    Err(e) => Err(e),
                }
            }
        } else if same_text(head, "mv") {
            match word_pair(&ws, Verb::Mv) {
                Ok((a, b)) => Ok(Command::Mv(a, b)),
                Err(e) => Err(e),
            }
        } else if same_text(head, "stat") {
            match joined_argument(&ws, 1, Verb::Stat) {
                Ok(a) => Ok(Command::Stat(a)),
                Err(e) => Err(e),
            }
        } else if same_text(head, "find") {
            match word_pair(&ws, Verb::Find) {
                Ok((a, b)) => Ok(Command::Find(a, b)),
                Err(e) => Err(e),
            }
        } else if same_text(head, "grep") {
            match word_pair(&ws, Verb::Grep) {
                Ok((a, b)) => Ok(Command::Grep(a, b)),
                Err(e) => Err(e),
            }
        } else if same_text(head, "ln") {
            match word_pair(&ws, Verb::Ln) {
                Ok((a, b)) => Ok(Command::Ln(a, b)),
                Err(e) => Err(e),
            }
        } else {
            Err(CommandError::Unknown)
        }
    }
}

} // verus!
