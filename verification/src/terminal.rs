//! The event loop as a state machine: from the loop's state and an event
//! to the next state and the actions to carry out.

use crate::input::{key_bytes, translate_key, InputEvent, KeyCode, KeyEvent, CONTROL_BIT};
use crate::renderer::{content_height, content_rows, RendererView, TerminalRenderer};
use crate::text::chars_of;
use vstd::prelude::*;
use vstd::string::StringExecFns;

verus! {

/// Where the event loop stands.
#[derive(Clone, Copy, Debug, PartialEq, Eq, Structural)]
pub enum LoopState {
    /// Made, and not started yet.
    Starting,
    /// Handling events.
    Running,
    /// Over. No event leads out of this state.
    ShuttingDown,
}

/// A key combination that the loop keeps for itself.
#[derive(Clone, Copy, Debug, PartialEq, Eq, Structural)]
pub enum Shortcut {
    /// Control and `q`: end the session.
    Quit,
    /// Control and `b`: show or hide the status bar.
    ToggleStatusBar,
    /// Control and `r`: switch the debug echo.
    ToggleRawMode,
}

/// What the loop is told of.
#[derive(Clone, Copy, Debug, PartialEq, Eq, Structural)]
pub enum LoopEvent {
    /// What the input device delivered within the polling interval.
    Input(InputEvent),
    /// A read from the child returned no bytes: the child has closed its
    /// output.
    ChildClosed,
    /// Reading, writing or drawing failed.
    Failed,
}

/// What the loop asks to be done.
#[derive(Clone, Debug, PartialEq, Eq)]
pub enum Action {
    /// Put the device into raw mode and onto the alternate screen.
    EnterRawMode,
    /// Set the title from the working directory.
    RefreshTitle,
    /// Start the thread that reads the child's output.
    SpawnReader,
    /// Write the bytes to the child.
    WriteToChild(Vec<u8>),
    /// Tell the pseudo-terminal its new size.
    ResizePty { rows: u16, cols: u16 },
    /// Tell the renderer the window's new size.
    ResizeRenderer { width: u16, height: u16 },
    /// Show or hide the status bar.
    ToggleStatusBar,
    /// Switch the debug echo.
    ToggleRawMode,
    /// Wait for the given number of milliseconds.
    Sleep(u64),
    /// Look up the working directory and report it with
    /// `observe_directory`.
    CheckWorkingDirectory,
    /// Draw a frame.
    Render,
    /// Leave raw mode and the alternate screen, and release the
    /// pseudo-terminal.
    RestoreTerminal,
}

/// An action as a mathematical value.
pub enum ActionView {
    EnterRawMode,
    RefreshTitle,
    SpawnReader,
    WriteToChild(Seq<u8>),
    ResizePty { rows: u16, cols: u16 },
    ResizeRenderer { width: u16, height: u16 },
    ToggleStatusBar,
    ToggleRawMode,
    Sleep(u64),
    CheckWorkingDirectory,
    Render,
    RestoreTerminal,
}

impl View for Action {
    type V = ActionView;

    open spec fn view(&self) -> ActionView {
        match *self {
            Action::EnterRawMode => ActionView::EnterRawMode,
            Action::RefreshTitle => ActionView::RefreshTitle,
            Action::SpawnReader => ActionView::SpawnReader,
            Action::WriteToChild(bytes) => ActionView::WriteToChild(bytes@),
            Action::ResizePty { rows, cols } => ActionView::ResizePty { rows, cols },
            Action::ResizeRenderer { width, height } => ActionView::ResizeRenderer { width, height },
            Action::ToggleStatusBar => ActionView::ToggleStatusBar,
            Action::ToggleRawMode => ActionView::ToggleRawMode,
            Action::Sleep(millis) => ActionView::Sleep(millis),
            Action::CheckWorkingDirectory => ActionView::CheckWorkingDirectory,
            Action::Render => ActionView::Render,
            Action::RestoreTerminal => ActionView::RestoreTerminal,
        }
    }
}

/// The views of a sequence of actions, one for one.
pub open spec fn action_views(actions: Seq<Action>) -> Seq<ActionView> {
    Seq::new(actions.len(), |i: int| actions[i]@)
}

/// What can end a session other than the user or the child.
#[derive(Clone, Copy, Debug, PartialEq, Eq, Structural)]
pub enum Failure {
    /// The system gave no pseudo-terminal.
    PtyAllocation,
    /// The child could not be started.
    Spawn,
    /// The device could not be put into raw mode.
    RawMode,
    /// Reading from the child or writing to it failed.
    Io,
    /// Drawing a frame failed.
    Render,
}

impl Failure {
    /// Whether the failure belongs to the start: it is reported before the
    /// device's mode is changed, so that there is nothing to restore.
    pub open spec fn at_startup(self) -> bool {
        self is PtyAllocation || self is Spawn || self is RawMode
    }

    /// Whether the failure belongs to the start.
    pub fn is_startup(&self) -> (b: bool)
        ensures
            b == self.at_startup(),
    {
        match *self {
            Failure::PtyAllocation => true,
            Failure::Spawn => true,
            Failure::RawMode => true,
            Failure::Io => false,
            Failure::Render => false,
        }
    }

    /// The text of the diagnostic message.
    pub open spec fn message_text(self) -> Seq<char> {
        match self {
            Failure::PtyAllocation => "could not allocate a pseudo-terminal"@,
            Failure::Spawn => "could not start the child process"@,
            Failure::RawMode => "could not switch the terminal to raw mode"@,
            Failure::Io => "lost the connection to the child process"@,
            Failure::Render => "could not draw to the terminal"@,
        }
    }

    /// The diagnostic message, for display.
    pub fn message(&self) -> (text: String)
        ensures
            text@ == self.message_text(),
    {
        let text: &str = match *self {
            Failure::PtyAllocation => "could not allocate a pseudo-terminal",
            Failure::Spawn => "could not start the child process",
            Failure::RawMode => "could not switch the terminal to raw mode",
            Failure::Io => "lost the connection to the child process",
            Failure::Render => "could not draw to the terminal",
        };
        String::from_str(text)
    }
}

/// The status that the process ends with: zero after a clean end of the
/// session, one after a failure.
pub open spec fn exit_status_of(outcome: Option<Failure>) -> i32 {
    match outcome {
        None => 0,
        Some(_) => 1,
    }
}

/// The status that the process ends with.
pub fn exit_status(outcome: Option<Failure>) -> (status: i32)
    ensures
        status == exit_status_of(outcome),
{
    match outcome {
        None => 0,
        Some(_) => 1,
    }
}

/// The milliseconds to wait for input before the interval counts as idle.
pub const POLL_INTERVAL_MS: u64 = 100;

/// The milliseconds to sleep after an idle interval.
pub const IDLE_SLEEP_MS: u64 = 10;

/// The number of loop iterations after which the working directory is
/// looked at again: as many idle iterations as fit into one second.
pub const DIRECTORY_CHECK_PERIOD: u64 = 9;

/// The milliseconds from one look at the working directory to the next,
/// about.
pub const DIRECTORY_CHECK_MS: u64 = 1000;

/// The shortcut that a key press stands for, if any: Control alone with
/// `q`, `b` or `r`.
pub open spec fn shortcut_of(key: KeyEvent) -> Option<Shortcut> {
    if !key.modifiers.is_control_only() {
        None
    } else if key.code == KeyCode::Char('q') {
        Some(Shortcut::Quit)
    } else if key.code == KeyCode::Char('b') {
        Some(Shortcut::ToggleStatusBar)
    } else if key.code == KeyCode::Char('r') {
        Some(Shortcut::ToggleRawMode)
    } else {
        None
    }
}

/// The shortcut that a key press stands for, if any.
pub fn reserved_shortcut(key: KeyEvent) -> (shortcut: Option<Shortcut>)
    ensures
        shortcut == shortcut_of(key),
{
    if key.modifiers.bits != CONTROL_BIT {
        return None;
    }
    match key.code {
        KeyCode::Char(c) => {
            if c == 'q' {
                Some(Shortcut::Quit)
            } else if c == 'b' {
                Some(Shortcut::ToggleStatusBar)
            } else if c == 'r' {
                Some(Shortcut::ToggleRawMode)
            } else {
                None
            }
        },
        _ => None,
    }
}

/// Whether `dir` is the directory `home` or lies below it: `home` is not
/// empty, `dir` starts with it, and there `dir` ends or goes on with a
/// slash. A directory beside `home` whose name only starts alike is not
/// below it.
pub open spec fn is_home_or_below(dir: Seq<char>, home: Seq<char>) -> bool {
    home.len() > 0 && home.is_prefix_of(dir) && (dir.len() == home.len() || dir[home.len() as int]
        == '/')
}

/// The path as the title shows it: with `~` in place of the home
/// directory where the path is the home directory or lies below it.
pub open spec fn short_path(dir: Seq<char>, home: Option<Seq<char>>) -> Seq<char> {
    match home {
        Some(h) => if is_home_or_below(dir, h) {
            seq!['~'] + dir.skip(h.len() as int)
        } else {
            dir
        },
        None => dir,
    }
}

/// The title for the working directory `dir`.
pub open spec fn title_text(dir: Seq<char>, home: Option<Seq<char>>) -> Seq<char> {
    "Terminal - "@ + short_path(dir, home)
}

/// Whether `prefix` is the start of `text`.
fn starts_with(text: &Vec<char>, prefix: &Vec<char>) -> (b: bool)
    ensures
        b == prefix@.is_prefix_of(text@),
{
    if prefix.len() > text.len() {
        return false;
    }
    let mut i: usize = 0;
    while i < prefix.len()
        invariant
            i <= prefix.len() <= text.len(),
            forall|j: int| 0 <= j < i ==> prefix@[j] == text@[j],
        decreases prefix.len() - i,
    {
        if prefix[i] != text[i] {
            assert(prefix@[i as int] != text@.subrange(0, prefix@.len() as int)[i as int]);
            return false;
        }
        i += 1;
    }
    assert(prefix@ =~= text@.subrange(0, prefix@.len() as int));
    true
}

/// The title for the working directory `current_dir`, with `~` for the
/// home directory `home`.
pub fn title_for(current_dir: &str, home: Option<&str>) -> (title: String)
    ensures
        title@ == title_text(
            current_dir@,
            match home {
                Some(h) => Some(h@),
                None => None,
            },
        ),
{
    let mut title = String::from_str("Terminal - ");
    match home {
        Some(h) => {
            let dir = chars_of(current_dir);
            let start = chars_of(h);
            if start.len() > 0 && starts_with(&dir, &start) && (dir.len() == start.len()
                || dir[start.len()] == '/') {
                title.push('~');
                let mut i: usize = start.len();
                while i < dir.len()
                    invariant
                        start.len() <= i <= dir.len(),
                        title@ == "Terminal - "@ + (seq!['~'] + dir@.subrange(
                            start.len() as int,
                            i as int,
                        )),
                    decreases dir.len() - i,
                {
                    title.push(dir[i]);
                    i += 1;
                    assert(title@ =~= "Terminal - "@ + (seq!['~'] + dir@.subrange(
                        start.len() as int,
                        i as int,
                    )));
                }
                assert(dir@.subrange(start.len() as int, i as int) =~= dir@.skip(
                    start.len() as int,
                ));
            } else {
                title.append(current_dir);
            }
        },
        None => {
            title.append(current_dir);
        },
    }
    title
}

/// `dirs_next::home_dir`: the user's home directory, as the environment
/// and the system's user database give it, or nothing. Nothing is claimed
/// of the path.
#[verifier::external_body]
fn home_directory() -> Option<String> {
    match dirs_next::home_dir() {
        Some(path) => Some(path.to_string_lossy().into_owned()),
        None => None,
    }
}

/// The count of loop iterations after one more; at the largest value it
/// stays.
pub open spec fn next_tick(ticks: u64) -> u64 {
    if ticks == u64::MAX {
        u64::MAX
    } else {
        (ticks + 1) as u64
    }
}

/// The event loop as a mathematical value.
pub struct TerminalView {
    pub state: LoopState,
    pub width: u16,
    pub height: u16,
    /// Whether the status bar is shown, as far as the loop has asked for
    /// it.
    pub show_status_bar: bool,
    pub current_dir: Seq<char>,
    /// The loop iterations since the working directory was last looked
    /// at.
    pub ticks: u64,
}

impl TerminalView {
    /// This loop one iteration later, in the state `state`.
    pub open spec fn ticked(self, state: LoopState) -> TerminalView {
        TerminalView { state, ticks: next_tick(self.ticks), ..self }
    }

    /// The rows of the content area: what the window leaves beside the
    /// chrome. The screen has that many rows, and the pseudo-terminal is
    /// told the same.
    pub open spec fn content_rows(self) -> u16 {
        content_height(self.height, self.show_status_bar)
    }

    /// What the shortcut for the status bar leads to. The content area
    /// gains or loses a row: the pseudo-terminal is told first, then the
    /// renderer, and a frame is drawn.
    pub open spec fn on_status_bar_toggle(self) -> (TerminalView, Seq<ActionView>) {
        (
            TerminalView {
                show_status_bar: !self.show_status_bar,
                ..self.ticked(LoopState::Running)
            },
            seq![
                ActionView::ResizePty {
                    rows: content_height(self.height, !self.show_status_bar),
                    cols: self.width,
                },
                ActionView::ToggleStatusBar,
                ActionView::Render,
            ],
        )
    }

    /// What a key press leads to. A shortcut is handled by the loop and
    /// never written to the child. Any other key is translated, and
    /// written to the child unless it translates to nothing. A frame is
    /// drawn afterwards, unless the session ends.
    pub open spec fn on_key(self, key: KeyEvent) -> (TerminalView, Seq<ActionView>) {
        match shortcut_of(key) {
            Some(Shortcut::Quit) => (
                self.ticked(LoopState::ShuttingDown),
                seq![ActionView::RestoreTerminal],
            ),
            Some(Shortcut::ToggleStatusBar) => self.on_status_bar_toggle(),
            Some(Shortcut::ToggleRawMode) => (
                self.ticked(LoopState::Running),
                seq![ActionView::ToggleRawMode, ActionView::Render],
            ),
            None => (
                self.ticked(LoopState::Running),
                if key_bytes(key).len() == 0 {
                    seq![ActionView::Render]
                } else {
                    seq![ActionView::WriteToChild(key_bytes(key)), ActionView::Render]
                },
            ),
        }
    }

    /// What a change of the window's size leads to: the pseudo-terminal is
    /// told the size of the new content area first, then the renderer is
    /// told the size of the window, and a frame is drawn.
    pub open spec fn on_resize(self, width: u16, height: u16) -> (TerminalView, Seq<ActionView>) {
        (
            TerminalView { width, height, ..self.ticked(LoopState::Running) },
            seq![
                ActionView::ResizePty {
                    rows: content_height(height, self.show_status_bar),
                    cols: width,
                },
                ActionView::ResizeRenderer { width, height },
                ActionView::Render,
            ],
        )
    }

    /// Whether it is time to look at the working directory: with this
    /// iteration, as many have passed since the last look as make a
    /// second.
    pub open spec fn directory_check_due(self) -> bool {
        next_tick(self.ticks) >= DIRECTORY_CHECK_PERIOD
    }

    /// What an idle interval leads to: a short sleep, a look at the
    /// working directory if it is time for one, and a frame. After the look
    /// the count of iterations starts anew. A look that falls due while
    /// events are handled is made in the first idle interval after them.
    pub open spec fn on_idle(self) -> (TerminalView, Seq<ActionView>) {
        if self.directory_check_due() {
            (
                TerminalView { state: LoopState::Running, ticks: 0, ..self },
                seq![
                    ActionView::Sleep(IDLE_SLEEP_MS),
                    ActionView::CheckWorkingDirectory,
                    ActionView::Render,
                ],
            )
        } else {
            (
                self.ticked(LoopState::Running),
                seq![ActionView::Sleep(IDLE_SLEEP_MS), ActionView::Render],
            )
        }
    }

    /// The end of the session: the device is restored, and nothing else is
    /// done.
    pub open spec fn on_end(self) -> (TerminalView, Seq<ActionView>) {
        (self.ticked(LoopState::ShuttingDown), seq![ActionView::RestoreTerminal])
    }

    /// The next state and the actions for `event`. Only a running loop
    /// handles events; before the start and after the end nothing changes
    /// and nothing is done.
    pub open spec fn step(self, event: LoopEvent) -> (TerminalView, Seq<ActionView>) {
        if self.state != LoopState::Running {
            (self, Seq::empty())
        } else {
            match event {
                LoopEvent::Input(InputEvent::Key(key)) => self.on_key(key),
                LoopEvent::Input(InputEvent::Resize(width, height)) => self.on_resize(
                    width,
                    height,
                ),
                LoopEvent::Input(InputEvent::Idle) => self.on_idle(),
                LoopEvent::ChildClosed => self.on_end(),
                LoopEvent::Failed => self.on_end(),
            }
        }
    }

    /// The start of the loop: raw mode, the size of the content area for
    /// the pseudo-terminal, the title, the reader. A loop that was started
    /// before is left as it is.
    pub open spec fn start(self) -> (TerminalView, Seq<ActionView>) {
        if self.state == LoopState::Starting {
            (
                TerminalView { state: LoopState::Running, ..self },
                seq![
                    ActionView::EnterRawMode,
                    ActionView::ResizePty { rows: self.content_rows(), cols: self.width },
                    ActionView::RefreshTitle,
                    ActionView::SpawnReader,
                ],
            )
        } else {
            (self, Seq::empty())
        }
    }

    /// Whether loop and renderer are in step: they have the same window
    /// and agree on the status bar, and the renderer's screen has the size
    /// of the content area.
    pub open spec fn in_step_with(self, renderer: RendererView) -> bool {
        self.width == renderer.width && self.height == renderer.height && self.show_status_bar
            == renderer.show_status_bar && renderer.screen_fits()
    }

    /// The state after `events`, handled in turn, and all the actions asked
    /// for on the way.
    pub open spec fn run(self, events: Seq<LoopEvent>) -> (TerminalView, Seq<ActionView>)
        decreases events.len(),
    {
        if events.len() == 0 {
            (self, Seq::empty())
        } else {
            let before = self.run(events.drop_last());
            let last = before.0.step(events.last());
            (last.0, before.1 + last.1)
        }
    }
}

/// The renderer after it has done what `action` asks of it; an action that
/// is not the renderer's leaves it as it is.
pub open spec fn applied_one(renderer: RendererView, action: ActionView) -> RendererView {
    match action {
        ActionView::ResizeRenderer { width, height } => renderer.resized(width, height),
        ActionView::ToggleStatusBar => renderer.status_bar_toggled(),
        ActionView::ToggleRawMode => renderer.raw_mode_toggled(),
        _ => renderer,
    }
}

/// The renderer after it has done what `actions` ask of it, in turn.
pub open spec fn applied(renderer: RendererView, actions: Seq<ActionView>) -> RendererView
    decreases actions.len(),
{
    if actions.len() == 0 {
        renderer
    } else {
        applied_one(applied(renderer, actions.drop_last()), actions.last())
    }
}

/// How often `actions` asks to restore the device.
pub open spec fn restorations(actions: Seq<ActionView>) -> nat
    decreases actions.len(),
{
    if actions.len() == 0 {
        0
    } else if actions.last() is RestoreTerminal {
        restorations(actions.drop_last()) + 1
    } else {
        restorations(actions.drop_last())
    }
}

/// Whether `actions` writes anything to the child.
pub open spec fn writes_to_child(actions: Seq<ActionView>) -> bool {
    exists|i: int| 0 <= i < actions.len() && #[trigger] actions[i] is WriteToChild
}

/// The event loop: its state, the window's size, whether the status bar is
/// shown, the working directory that the title shows, and the count of
/// iterations since that directory was last looked at. The loop and a new
/// renderer both start with the status bar shown, and the bar changes only
/// where the loop asks for it, so that the two stay in step.
pub struct Terminal {
    state: LoopState,
    width: u16,
    height: u16,
    show_status_bar: bool,
    current_dir: String,
    ticks: u64,
}

impl View for Terminal {
    type V = TerminalView;

    closed spec fn view(&self) -> TerminalView {
        TerminalView {
            state: self.state,
            width: self.width,
            height: self.height,
            show_status_bar: self.show_status_bar,
            current_dir: self.current_dir@,
            ticks: self.ticks,
        }
    }
}

/// `actions` with `action` at its end has the views of `actions` and then
/// the view of `action`.
proof fn lemma_action_views_push(actions: Seq<Action>, action: Action)
    ensures
        action_views(actions.push(action)) == action_views(actions).push(action@),
{
    assert(action_views(actions.push(action)) =~= action_views(actions).push(action@));
}

/// Appends `action`.
fn push_action(actions: &mut Vec<Action>, action: Action)
    ensures
        action_views(final(actions)@) == action_views(old(actions)@).push(action@),
{
    proof {
        lemma_action_views_push(actions@, action);
    }
    actions.push(action);
}

impl Terminal {
    /// A loop for a window of the given size, in the working directory
    /// `current_dir`, with the status bar shown, not yet started.
    pub fn new(width: u16, height: u16, current_dir: String) -> (terminal: Terminal)
        ensures
            terminal@ == (TerminalView {
                state: LoopState::Starting,
                width,
                height,
                show_status_bar: true,
                current_dir: current_dir@,
                ticks: 0,
            }),
    {
        Terminal {
            state: LoopState::Starting,
            width,
            height,
            show_status_bar: true,
            current_dir,
            ticks: 0,
        }
    }

    /// Whether the status bar is shown, as far as the loop has asked for
    /// it.
    pub fn status_bar_shown(&self) -> (shown: bool)
        ensures
            shown == self@.show_status_bar,
    {
        self.show_status_bar
    }

    /// Where the loop stands.
    pub fn state(&self) -> (state: LoopState)
        ensures
            state == self@.state,
    {
        self.state
    }

    /// Whether the loop handles events.
    pub fn is_running(&self) -> (running: bool)
        ensures
            running == (self@.state == LoopState::Running),
    {
        match self.state {
            LoopState::Running => true,
            _ => false,
        }
    }

    /// The window's size as (width, height).
    pub fn size(&self) -> (size: (u16, u16))
        ensures
            size == (self@.width, self@.height),
    {
        (self.width, self.height)
    }

    /// The working directory that the title shows.
    pub fn current_dir(&self) -> (dir: &str)
        ensures
            dir@ == self@.current_dir,
    {
        self.current_dir.as_str()
    }

    /// Starts the loop and returns what there is to do before the first
    /// event.
    pub fn start(&mut self) -> (actions: Vec<Action>)
        ensures
            (final(self)@, action_views(actions@)) == old(self)@.start(),
    {
        let mut actions: Vec<Action> = Vec::new();
        assert(action_views(actions@) =~= Seq::<ActionView>::empty());
        match self.state {
            LoopState::Starting => {
                self.state = LoopState::Running;
                let rows = content_rows(self.height, self.show_status_bar);
                push_action(&mut actions, Action::EnterRawMode);
                push_action(&mut actions, Action::ResizePty { rows, cols: self.width });
                push_action(&mut actions, Action::RefreshTitle);
                push_action(&mut actions, Action::SpawnReader);
                assert(action_views(actions@) =~= seq![
                    ActionView::EnterRawMode,
                    ActionView::ResizePty { rows, cols: self.width },
                    ActionView::RefreshTitle,
                    ActionView::SpawnReader,
                ]);
            },
            _ => {},
        }
        actions
    }

    /// Handles one event: moves to the next state and returns the actions
    /// to carry out, in order.
    pub fn step(&mut self, event: LoopEvent) -> (actions: Vec<Action>)
        ensures
            (final(self)@, action_views(actions@)) == old(self)@.step(event),
    {
        let mut actions: Vec<Action> = Vec::new();
        assert(action_views(actions@) =~= Seq::<ActionView>::empty());
        match self.state {
            LoopState::Running => {},
            _ => {
                return actions;
            },
        }
        self.ticks = if self.ticks == u64::MAX {
            u64::MAX
        } else {
            self.ticks + 1
        };
        match event {
            LoopEvent::Input(InputEvent::Key(key)) => {
                match reserved_shortcut(key) {
                    Some(Shortcut::Quit) => {
                        self.state = LoopState::ShuttingDown;
                        push_action(&mut actions, Action::RestoreTerminal);
                        assert(action_views(actions@) =~= seq![ActionView::RestoreTerminal]);
                    },
                    Some(Shortcut::ToggleStatusBar) => {
                        self.show_status_bar = !self.show_status_bar;
                        let rows = content_rows(self.height, self.show_status_bar);
                        push_action(&mut actions, Action::ResizePty { rows, cols: self.width });
                        push_action(&mut actions, Action::ToggleStatusBar);
                        push_action(&mut actions, Action::Render);
                        assert(action_views(actions@) =~= seq![
                            ActionView::ResizePty { rows, cols: self.width },
                            ActionView::ToggleStatusBar,
                            ActionView::Render,
                        ]);
                    },
                    Some(Shortcut::ToggleRawMode) => {
                        push_action(&mut actions, Action::ToggleRawMode);
                        push_action(&mut actions, Action::Render);
                        assert(action_views(actions@) =~= seq![
                            ActionView::ToggleRawMode,
                            ActionView::Render,
                        ]);
                    },
                    None => {
                        let bytes = translate_key(key);
                        if bytes.len() > 0 {
                            push_action(&mut actions, Action::WriteToChild(bytes));
                            push_action(&mut actions, Action::Render);
                            assert(action_views(actions@) =~= seq![
                                ActionView::WriteToChild(key_bytes(key)),
                                ActionView::Render,
                            ]);
                        } else {
                            push_action(&mut actions, Action::Render);
                            assert(action_views(actions@) =~= seq![ActionView::Render]);
                        }
                    },
                }
            },
            LoopEvent::Input(InputEvent::Resize(width, height)) => {
                self.width = width;
                self.height = height;
                let rows = content_rows(height, self.show_status_bar);
                push_action(&mut actions, Action::ResizePty { rows, cols: width });
                push_action(&mut actions, Action::ResizeRenderer { width, height });
                push_action(&mut actions, Action::Render);
                assert(action_views(actions@) =~= seq![
                    ActionView::ResizePty { rows, cols: width },
                    ActionView::ResizeRenderer { width, height },
                    ActionView::Render,
                ]);
            },
            LoopEvent::Input(InputEvent::Idle) => {
                push_action(&mut actions, Action::Sleep(IDLE_SLEEP_MS));
                if self.ticks >= DIRECTORY_CHECK_PERIOD {
                    self.ticks = 0;
                    push_action(&mut actions, Action::CheckWorkingDirectory);
                    push_action(&mut actions, Action::Render);
                    assert(action_views(actions@) =~= seq![
                        ActionView::Sleep(IDLE_SLEEP_MS),
                        ActionView::CheckWorkingDirectory,
                        ActionView::Render,
                    ]);
                } else {
                    push_action(&mut actions, Action::Render);
                    assert(action_views(actions@) =~= seq![
                        ActionView::Sleep(IDLE_SLEEP_MS),
                        ActionView::Render,
                    ]);
                }
            },
            LoopEvent::ChildClosed => {
                self.state = LoopState::ShuttingDown;
                push_action(&mut actions, Action::RestoreTerminal);
                assert(action_views(actions@) =~= seq![ActionView::RestoreTerminal]);
            },
            LoopEvent::Failed => {
                self.state = LoopState::ShuttingDown;
                push_action(&mut actions, Action::RestoreTerminal);
                assert(action_views(actions@) =~= seq![ActionView::RestoreTerminal]);
            },
        }
        actions
    }

    /// Takes the working directory as it was just looked up, and says
    /// whether it differs from the one that the title shows. The loop keeps
    /// the new one.
    pub fn observe_directory(&mut self, dir: String) -> (changed: bool)
        ensures
            changed == (dir@ != old(self)@.current_dir),
            final(self)@ == (TerminalView { current_dir: dir@, ..old(self)@ }),
    {
        let changed = !crate::text::same_text(dir.as_str(), self.current_dir.as_str());
        self.current_dir = dir;
        changed
    }

    /// The title for the loop's working directory, with `~` for `home`.
    pub fn title_with_home(&self, home: Option<&str>) -> (title: String)
        ensures
            title@ == title_text(
                self@.current_dir,
                match home {
                    Some(h) => Some(h@),
                    None => None,
                },
            ),
    {
        title_for(self.current_dir.as_str(), home)
    }

    /// Gives the renderer the title for the loop's working directory, with
    /// `~` for the user's home directory, whatever that is. Nothing else
    /// of the renderer changes.
    pub fn update_title(&self, renderer: &mut TerminalRenderer)
        ensures
            final(renderer)@ == (RendererView { title: final(renderer)@.title, ..old(renderer)@ }),
            exists|home: Option<Seq<char>>|
                final(renderer)@.title == #[trigger] title_text(self@.current_dir, home),
    {
        let home = home_directory();
        let title = match &home {
            Some(h) => title_for(self.current_dir.as_str(), Some(h.as_str())),
            None => title_for(self.current_dir.as_str(), None),
        };
        renderer.set_title(title);
        proof {
            let witness: Option<Seq<char>> = match home {
                Some(h) => Some(h@),
                None => None,
            };
            assert(renderer@.title == title_text(self@.current_dir, witness));
        }
    }
}

/// A shortcut is never forwarded: whatever the state, the actions for a
/// key press that is a shortcut write nothing to the child.
pub proof fn lemma_shortcut_not_forwarded(terminal: TerminalView, key: KeyEvent)
    requires
        shortcut_of(key) is Some,
    ensures
        !writes_to_child(terminal.step(LoopEvent::Input(InputEvent::Key(key))).1),
{
}

/// The quit shortcut, the end of the child's output and a failure each end
/// a running loop at once, with the device restored and nothing written to
/// the child.
pub proof fn lemma_session_ends_at_once(terminal: TerminalView, event: LoopEvent)
    requires
        terminal.state == LoopState::Running,
        event == LoopEvent::ChildClosed || event == LoopEvent::Failed || (event matches LoopEvent::Input(
            InputEvent::Key(key),
        ) && shortcut_of(key) == Some(Shortcut::Quit)),
    ensures
        terminal.step(event).0.state == LoopState::ShuttingDown,
        terminal.step(event).1 == seq![ActionView::RestoreTerminal],
{
}

/// After every event that leaves the loop running a frame is drawn, as the
/// last of the actions.
pub proof fn lemma_running_loop_redraws(terminal: TerminalView, event: LoopEvent)
    requires
        terminal.state == LoopState::Running,
        terminal.step(event).0.state == LoopState::Running,
    ensures
        terminal.step(event).1.len() > 0,
        terminal.step(event).1.last() == ActionView::Render,
{
}

/// A change of the window's size reaches the pseudo-terminal before it
/// reaches the renderer. The pseudo-terminal gets the size of the screen
/// that the renderer has after it: the rows of the content area, not those
/// of the window. Loop and renderer stay in step.
pub proof fn lemma_resize_reaches_the_pty_first(
    terminal: TerminalView,
    renderer: RendererView,
    width: u16,
    height: u16,
)
    requires
        terminal.state == LoopState::Running,
        terminal.in_step_with(renderer),
    ensures
        terminal.step(LoopEvent::Input(InputEvent::Resize(width, height))).1 == seq![
            ActionView::ResizePty {
                rows: renderer.resized(width, height).screen.rows,
                cols: renderer.resized(width, height).screen.cols,
            },
            ActionView::ResizeRenderer { width, height },
            ActionView::Render,
        ],
        renderer.resized(width, height).screen.rows == content_height(
            height,
            renderer.show_status_bar,
        ),
        terminal.step(LoopEvent::Input(InputEvent::Resize(width, height))).0.in_step_with(
            renderer.resized(width, height),
        ),
{
}

/// The shortcut for the status bar changes the content area by a row, and
/// the pseudo-terminal is told so before the renderer: it gets the size of
/// the screen that the renderer has after the toggle. Loop and renderer
/// stay in step.
pub proof fn lemma_toggle_reaches_the_pty_first(
    terminal: TerminalView,
    renderer: RendererView,
    key: KeyEvent,
)
    requires
        terminal.state == LoopState::Running,
        terminal.in_step_with(renderer),
        shortcut_of(key) == Some(Shortcut::ToggleStatusBar),
    ensures
        terminal.step(LoopEvent::Input(InputEvent::Key(key))).1 == seq![
            ActionView::ResizePty {
                rows: renderer.status_bar_toggled().screen.rows,
                cols: renderer.status_bar_toggled().screen.cols,
            },
            ActionView::ToggleStatusBar,
            ActionView::Render,
        ],
        terminal.step(LoopEvent::Input(InputEvent::Key(key))).0.in_step_with(
            renderer.status_bar_toggled(),
        ),
{
}

/// At the start the pseudo-terminal is told the size of the renderer's
/// screen, before the reader is started.
pub proof fn lemma_start_sizes_the_pty(terminal: TerminalView, renderer: RendererView)
    requires
        terminal.state == LoopState::Starting,
        terminal.in_step_with(renderer),
    ensures
        terminal.start().1 == seq![
            ActionView::EnterRawMode,
            ActionView::ResizePty { rows: renderer.screen.rows, cols: renderer.screen.cols },
            ActionView::RefreshTitle,
            ActionView::SpawnReader,
        ],
        terminal.start().0.in_step_with(renderer),
{
}

/// Whatever the event, a loop and a renderer that are in step stay so,
/// where the renderer does what the loop asks of it. The pseudo-terminal is
/// never told a size other than that of the renderer's screen.
pub proof fn lemma_pty_has_the_size_of_the_screen(
    terminal: TerminalView,
    renderer: RendererView,
    event: LoopEvent,
)
    requires
        terminal.in_step_with(renderer),
    ensures
        terminal.step(event).0.in_step_with(applied(renderer, terminal.step(event).1)),
        forall|i: int|
            0 <= i < terminal.step(event).1.len() ==> (#[trigger] terminal.step(event).1[i]
                matches ActionView::ResizePty { rows, cols } ==> rows == applied(
                renderer,
                terminal.step(event).1,
            ).screen.rows && cols == applied(renderer, terminal.step(event).1).screen.cols),
{
    let actions = terminal.step(event).1;
    reveal_with_fuel(applied, 4);
    if actions.len() == 1 {
        assert(actions.drop_last() =~= Seq::<ActionView>::empty());
    } else if actions.len() == 2 {
        assert(actions.drop_last().drop_last() =~= Seq::<ActionView>::empty());
    } else if actions.len() == 3 {
        assert(actions.drop_last().drop_last().drop_last() =~= Seq::<ActionView>::empty());
    }
}

/// The period of the look at the working directory is about a second:
/// that many idle iterations, each a polling interval and a sleep long,
/// fit into a second, and one more does not.
pub proof fn lemma_directory_check_is_about_once_a_second()
    ensures
        DIRECTORY_CHECK_PERIOD * (POLL_INTERVAL_MS + IDLE_SLEEP_MS) <= DIRECTORY_CHECK_MS,
        DIRECTORY_CHECK_MS < (DIRECTORY_CHECK_PERIOD + 1) * (POLL_INTERVAL_MS + IDLE_SLEEP_MS),
{
}

/// In an idle interval the working directory is looked at if and only if,
/// with this iteration, a full period of iterations has passed since the
/// last look; after a look the count starts anew, and without one it goes
/// up by one.
pub proof fn lemma_idle_loop_checks_at_the_period(terminal: TerminalView)
    requires
        terminal.state == LoopState::Running,
    ensures
        terminal.on_idle().1.contains(ActionView::CheckWorkingDirectory) <==> terminal.ticks + 1
            >= DIRECTORY_CHECK_PERIOD,
        terminal.on_idle().1.contains(ActionView::CheckWorkingDirectory) ==> terminal.on_idle().0.ticks
            == 0,
        !terminal.on_idle().1.contains(ActionView::CheckWorkingDirectory) ==> terminal.on_idle().0.ticks
            == terminal.ticks + 1,
{
    let actions = terminal.on_idle().1;
    if terminal.directory_check_due() {
        assert(actions[1] == ActionView::CheckWorkingDirectory);
    } else {
        assert forall|i: int| 0 <= i < actions.len() implies actions[i]
            != ActionView::CheckWorkingDirectory by {}
    }
}

/// The home directory is abbreviated only as a whole: a directory beside
/// it whose name starts with the same characters keeps its path.
pub proof fn lemma_sibling_of_home_is_not_abbreviated(dir: Seq<char>, home: Seq<char>)
    requires
        home.is_prefix_of(dir),
        dir.len() > home.len(),
        dir[home.len() as int] != '/',
    ensures
        title_text(dir, Some(home)) == title_text(dir, None),
        short_path(dir, Some(home)) == dir,
{
}

/// The count of restorations in two sequences of actions, one after the
/// other, is the sum of the two counts.
proof fn lemma_restorations_concat(first: Seq<ActionView>, second: Seq<ActionView>)
    ensures
        restorations(first + second) == restorations(first) + restorations(second),
    decreases second.len(),
{
    if second.len() == 0 {
        assert(first + second =~= first);
    } else {
        lemma_restorations_concat(first, second.drop_last());
        assert((first + second).drop_last() =~= first + second.drop_last());
    }
}

/// One step restores the device once where it ends a running loop, and
/// not at all otherwise. A loop that has ended stays so.
proof fn lemma_step_restorations(terminal: TerminalView, event: LoopEvent)
    ensures
        restorations(terminal.step(event).1) == if terminal.state == LoopState::Running
            && terminal.step(event).0.state == LoopState::ShuttingDown {
            1nat
        } else {
            0nat
        },
        terminal.state == LoopState::ShuttingDown ==> terminal.step(event).0.state
            == LoopState::ShuttingDown,
        terminal.state == LoopState::Starting ==> terminal.step(event).0.state
            == LoopState::Starting,
        terminal.state == LoopState::Running ==> terminal.step(event).0.state
            != LoopState::Starting,
{
    let actions = terminal.step(event).1;
    reveal_with_fuel(restorations, 4);
    if actions.len() == 1 {
        assert(actions.drop_last() =~= Seq::<ActionView>::empty());
    } else if actions.len() == 2 {
        assert(actions.drop_last().drop_last() =~= Seq::<ActionView>::empty());
    } else if actions.len() == 3 {
        assert(actions.drop_last().drop_last().drop_last() =~= Seq::<ActionView>::empty());
    }
}

/// Over any sequence of events the device is restored exactly once if a
/// running loop has ended by then, and never otherwise: not twice, and not
/// while the loop still runs.
pub proof fn lemma_restored_exactly_once(terminal: TerminalView, events: Seq<LoopEvent>)
    ensures
        restorations(terminal.run(events).1) == if terminal.state == LoopState::Running
            && terminal.run(events).0.state == LoopState::ShuttingDown {
            1nat
        } else {
            0nat
        },
        terminal.state == LoopState::ShuttingDown ==> terminal.run(events).0.state
            == LoopState::ShuttingDown,
        terminal.state == LoopState::Starting ==> terminal.run(events).0.state
            == LoopState::Starting,
        terminal.state == LoopState::Running ==> terminal.run(events).0.state
            != LoopState::Starting,
    decreases events.len(),
{
    if events.len() > 0 {
        let before = terminal.run(events.drop_last());
        lemma_restored_exactly_once(terminal, events.drop_last());
        lemma_step_restorations(before.0, events.last());
        lemma_restorations_concat(before.1, before.0.step(events.last()).1);
    }
}

} // verus!
