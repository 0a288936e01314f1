//! The pseudo-terminal channel, as far as it is a matter of values: the
//! size of the pseudo-terminal, what to launch in it, and what the reader
//! thread does with the outcome of each read.

use crate::terminal::LoopEvent;
use crate::text::views;
use vstd::prelude::*;
use vstd::string::StringExecFns;

verus! {

/// The size of a pseudo-terminal, in cells and in pixels.
#[derive(Clone, Copy, Debug, PartialEq, Eq, Structural)]
pub struct PtySize {
    pub rows: u16,
    pub cols: u16,
    pub pixel_width: u16,
    pub pixel_height: u16,
}

/// The rows of a pseudo-terminal when it is opened.
pub const INITIAL_ROWS: u16 = 24;

/// The columns of a pseudo-terminal when it is opened.
pub const INITIAL_COLS: u16 = 80;

/// The bytes that the reader thread asks for at a time.
pub const READ_BUFFER_SIZE: usize = 4096;

impl PtySize {
    /// A size in cells; the size in pixels is left open, as zero.
    pub fn cells(rows: u16, cols: u16) -> (size: PtySize)
        ensures
            size == (PtySize { rows, cols, pixel_width: 0, pixel_height: 0 }),
    {
        PtySize { rows, cols, pixel_width: 0, pixel_height: 0 }
    }

    /// The size that a pseudo-terminal is opened with: 24 rows of 80
    /// columns.
    pub fn initial() -> (size: PtySize)
        ensures
            size == (PtySize {
                rows: INITIAL_ROWS,
                cols: INITIAL_COLS,
                pixel_width: 0,
                pixel_height: 0,
            }),
    {
        PtySize::cells(INITIAL_ROWS, INITIAL_COLS)
    }
}

/// What to launch in a new pseudo-terminal.
#[derive(Clone, Debug, PartialEq, Eq)]
pub struct LaunchPlan {
    /// The program to run.
    pub program: String,
    /// Its arguments, after the program's own name.
    pub args: Vec<String>,
    /// The value of the environment variable `TERM` for the child.
    pub term: String,
    /// The size that the pseudo-terminal is opened with.
    pub size: PtySize,
}

/// A launch plan as a mathematical value.
pub struct LaunchPlanView {
    pub program: Seq<char>,
    pub args: Seq<Seq<char>>,
    pub term: Seq<char>,
    pub size: PtySize,
}

impl View for LaunchPlan {
    type V = LaunchPlanView;

    open spec fn view(&self) -> LaunchPlanView {
        LaunchPlanView {
            program: self.program@,
            args: views(self.args@),
            term: self.term@,
            size: self.size,
        }
    }
}

/// The views of a sequence of string slices, one for one.
pub open spec fn slice_views(strings: Seq<&str>) -> Seq<Seq<char>> {
    Seq::new(strings.len(), |i: int| strings[i]@)
}

/// The plan for running `command` with `args`: the child is told that it
/// runs in a terminal of 256 colours, and the pseudo-terminal has the
/// initial size.
pub open spec fn plan_for(command: Seq<char>, args: Seq<Seq<char>>) -> LaunchPlanView {
    LaunchPlanView {
        program: command,
        args,
        term: "xterm-256color"@,
        size: PtySize {
            rows: INITIAL_ROWS,
            cols: INITIAL_COLS,
            pixel_width: 0,
            pixel_height: 0,
        },
    }
}

/// The plan for running `command` with `args` in a new pseudo-terminal.
pub fn launch_plan(command: &str, args: &[&str]) -> (plan: LaunchPlan)
    ensures
        plan@ == plan_for(command@, slice_views(args@)),
{
    let mut owned: Vec<String> = Vec::new();
    let mut i: usize = 0;
    while i < args.len()
        invariant
            i <= args.len(),
            owned@.len() == i,
            forall|j: int| 0 <= j < i ==> owned@[j]@ == args@[j]@,
        decreases args.len() - i,
    {
        owned.push(String::from_str(args[i]));
        i += 1;
    }
    assert(views(owned@) =~= slice_views(args@));
    LaunchPlan {
        program: String::from_str(command),
        args: owned,
        term: String::from_str("xterm-256color"),
        size: PtySize::initial(),
    }
}

/// The flag that tells the program to run as the child: as the
/// interactive shell, and not as the emulator.
pub open spec fn shell_mode_flag() -> Seq<char> {
    "--shell-mode"@
}

/// The plan for running the program at `executable` again, as the child.
pub fn relaunch_plan(executable: &str) -> (plan: LaunchPlan)
    ensures
        plan@ == plan_for(executable@, seq![shell_mode_flag()]),
{
    let args: [&str; 1] = ["--shell-mode"];
    let plan = launch_plan(executable, args.as_slice());
    assert(slice_views(args@) =~= seq![shell_mode_flag()]);
    plan
}

/// Whether the arguments of the process, its own name first, ask for the
/// child's role: the first argument after the name is the flag.
pub fn is_shell_mode(args: &Vec<String>) -> (shell: bool)
    ensures
        shell == (args@.len() > 1 && args@[1]@ == shell_mode_flag()),
{
    args.len() > 1 && crate::text::same_text(args[1].as_str(), "--shell-mode")
}

/// What the reader thread does after a read.
#[derive(Clone, Copy, Debug, PartialEq, Eq, Structural)]
pub enum ReaderStep {
    /// Hand the first bytes of the buffer, as many as given, to the
    /// callback, and read again.
    Deliver(usize),
    /// Stop reading for good, and tell the event loop why.
    Finish(LoopEvent),
}

/// What follows from a read into a buffer of `capacity` bytes that
/// returned `read`, the number of bytes or nothing on an error. Bytes are
/// delivered; no bytes mean that the child has closed its output; an error,
/// or a count that the buffer cannot hold, is a failure.
pub open spec fn after_read(read: Option<usize>, capacity: usize) -> ReaderStep {
    match read {
        Some(n) => if n == 0 {
            ReaderStep::Finish(LoopEvent::ChildClosed)
        } else if n <= capacity {
            ReaderStep::Deliver(n)
        } else {
            ReaderStep::Finish(LoopEvent::Failed)
        },
        None => ReaderStep::Finish(LoopEvent::Failed),
    }
}

/// Decides what the reader thread does after a read.
pub fn reader_step(read: Option<usize>, capacity: usize) -> (step: ReaderStep)
    ensures
        step == after_read(read, capacity),
{
    match read {
        Some(n) => if n == 0 {
            ReaderStep::Finish(LoopEvent::ChildClosed)
        } else if n <= capacity {
            ReaderStep::Deliver(n)
        } else {
            ReaderStep::Finish(LoopEvent::Failed)
        },
        None => ReaderStep::Finish(LoopEvent::Failed),
    }
}

/// Whether a channel has its reader thread yet. A channel has at most one.
#[derive(Clone, Copy, Debug)]
pub struct ReaderSlot {
    taken: bool,
}

impl ReaderSlot {
    /// Whether the reader thread has been started.
    pub closed spec fn is_taken(&self) -> bool {
        self.taken
    }

    /// The slot of a new channel, which has no reader.
    pub fn new() -> (slot: ReaderSlot)
        ensures
            !slot.is_taken(),
    {
        ReaderSlot { taken: false }
    }

    /// Claims the slot for a reader thread. Returns whether the thread may
    /// be started: yes the first time, never again.
    pub fn claim(&mut self) -> (granted: bool)
        ensures
            granted == !old(self).is_taken(),
            final(self).is_taken(),
    {
        let granted = !self.taken;
        self.taken = true;
        granted
    }
}

} // verus!
