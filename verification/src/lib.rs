//! The core of a terminal emulator that runs its own line-oriented shell:
//! key translation, the screen model, the layout of a frame, the event
//! loop as a state machine, and the shell's grammar and reports. Every
//! function states what it returns, and Verus proves that it does.
//!
//! What is not proved is what other crates do. It is stated where it is
//! used, and nowhere else:
//!
//! - `screen`: a new `vt100` parser is blank, a parser keeps its size, and
//!   its cells and cursor depend on its size and on the bytes it has been
//!   given alone;
//! - `shell`: the text that `chrono` writes for a moment in UTC depends on
//!   the moment alone;
//! - `renderer` and `terminal`: the time of day from `chrono` and the home
//!   directory from `dirs_next` are taken as they come, with nothing
//!   claimed of them;
//! - `text`: `String::push` appends one character.

pub mod color;
pub mod command;
pub mod draw;
pub mod input;
pub mod pty;
pub mod renderer;
pub mod screen;
pub mod shell;
pub mod terminal;
pub mod text;
