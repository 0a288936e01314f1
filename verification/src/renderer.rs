//! The renderer: the screen model inside a window with a title bar and a
//! status bar, and the frame that shows it.

use crate::draw::{
    content_ops, cursor_op, keeps_pen, lemma_thrifty_concat, lemma_thrifty_content,
    lemma_thrifty_plain, lemma_thrifty_status_bar, lemma_thrifty_then_reset,
    lemma_thrifty_title_bar, op_views, push_content, push_cursor, push_status_bar,
    push_title_bar, sets_colors_only_on_change, status_bar_ops, title_bar_ops, DrawOp,
    DrawOpView, Pen,
};
use crate::screen::{ScreenModel, ScreenView};
use vstd::prelude::*;
use vstd::string::StringExecFns;

verus! {

/// The rows that the chrome takes: the title bar, and the status bar where
/// it is shown.
pub open spec fn reserved_rows(show_status_bar: bool) -> u16 {
    if show_status_bar {
        2
    } else {
        1
    }
}

/// The rows that a window of `height` rows leaves for content.
pub open spec fn content_height(height: u16, show_status_bar: bool) -> u16 {
    if height > reserved_rows(show_status_bar) {
        (height - reserved_rows(show_status_bar)) as u16
    } else {
        0
    }
}

/// How a byte shows in the debug echo: a control byte or DEL as a caret
/// and the character 64 places further on, any other byte as the character
/// with its code.
pub open spec fn visible_byte(byte: u8) -> Seq<char> {
    if byte <= 31 || byte == 127 {
        seq!['^', (byte + 64) as char]
    } else {
        seq![byte as char]
    }
}

/// The bytes of `data`, each made visible.
pub open spec fn visible_bytes(data: Seq<u8>) -> Seq<char>
    decreases data.len(),
{
    if data.len() == 0 {
        Seq::empty()
    } else {
        visible_bytes(data.drop_last()) + visible_byte(data.last())
    }
}

/// The line of the debug echo for `data`.
pub open spec fn debug_line(data: Seq<u8>) -> Seq<char> {
    "Raw data: "@ + visible_bytes(data)
}

/// The renderer as a mathematical value.
pub struct RendererView {
    pub screen: ScreenView,
    pub width: u16,
    pub height: u16,
    pub title: Seq<char>,
    pub show_status_bar: bool,
    pub raw_mode: bool,
}

impl RendererView {
    /// Whether the screen has the size of the content area: the window's
    /// width, and its height less the rows of the chrome.
    pub open spec fn screen_fits(self) -> bool {
        self.screen.rows == content_height(self.height, self.show_status_bar) && self.screen.cols
            == self.width
    }

    /// This renderer with a blank screen of the size that its window and
    /// its flags ask for.
    pub open spec fn with_blank_screen(self) -> RendererView {
        RendererView {
            screen: ScreenView::blank(
                content_height(self.height, self.show_status_bar),
                self.width,
            ),
            ..self
        }
    }

    /// This renderer in a window of the given size. The screen is blank.
    pub open spec fn resized(self, width: u16, height: u16) -> RendererView {
        (RendererView { width, height, ..self }).with_blank_screen()
    }

    /// This renderer with the status bar shown if it was hidden and hidden
    /// if it was shown. The screen is blank, at the new content height.
    pub open spec fn status_bar_toggled(self) -> RendererView {
        (RendererView { show_status_bar: !self.show_status_bar, ..self }).with_blank_screen()
    }

    /// This renderer with the debug echo switched. The screen is blank, at
    /// the content height.
    pub open spec fn raw_mode_toggled(self) -> RendererView {
        (RendererView { raw_mode: !self.raw_mode, ..self }).with_blank_screen()
    }

    /// This renderer after the screen has interpreted `data`.
    pub open spec fn fed(self, data: Seq<u8>) -> RendererView {
        RendererView { screen: self.screen.fed(data), ..self }
    }

    /// The frame at the time `clock`: the display cleared, the title bar,
    /// the content rows, the default colours, the status bar where it is
    /// shown, and last the cursor.
    pub open spec fn frame(self, clock: Seq<char>) -> Seq<DrawOpView> {
        seq![DrawOpView::Clear] + title_bar_ops(self.width, self.title) + content_ops(self.screen)
            + seq![DrawOpView::ResetColor] + self.status_bar(clock) + seq![cursor_op(self.screen)]
    }

    /// The status bar at the time `clock`, nothing where it is hidden.
    pub open spec fn status_bar(self, clock: Seq<char>) -> Seq<DrawOpView> {
        if self.show_status_bar {
            status_bar_ops(self.width, self.height, clock)
        } else {
            Seq::empty()
        }
    }
}

/// `chrono::Local::now`, formatted as hours, minutes and seconds: the
/// local time of day. Nothing is claimed of the text. The call fails on a
/// machine whose clock reads a time before 1970.
#[verifier::external_body]
fn clock_text() -> String {
    chrono::Local::now().format("%H:%M:%S").to_string()
}

/// Draws the screen model inside the window's chrome.
pub struct TerminalRenderer {
    screen: ScreenModel,
    width: u16,
    height: u16,
    title: String,
    show_status_bar: bool,
    raw_mode: bool,
}

impl View for TerminalRenderer {
    type V = RendererView;

    closed spec fn view(&self) -> RendererView {
        RendererView {
            screen: self.screen@,
            width: self.width,
            height: self.height,
            title: self.title@,
            show_status_bar: self.show_status_bar,
            raw_mode: self.raw_mode,
        }
    }
}

/// The rows that a window of `height` rows leaves for content.
pub fn content_rows(height: u16, show_status_bar: bool) -> (rows: u16)
    ensures
        rows == content_height(height, show_status_bar),
{
    let reserved: u16 = if show_status_bar {
        2
    } else {
        1
    };
    if height > reserved {
        height - reserved
    } else {
        0
    }
}

/// Appends to `text` the visible form of `byte`.
fn push_visible_byte(text: &mut String, byte: u8)
    ensures
        final(text)@ == old(text)@ + visible_byte(byte),
{
    if byte <= 31 || byte == 127 {
        text.push('^');
        text.push((byte + 64) as char);
        assert(text@ =~= old(text)@ + visible_byte(byte));
    } else {
        text.push(byte as char);
        assert(text@ =~= old(text)@ + visible_byte(byte));
    }
}

/// The line of the debug echo for `data`.
pub fn debug_echo(data: &[u8]) -> (line: String)
    ensures
        line@ == debug_line(data@),
{
    let mut line = String::from_str("Raw data: ");
    let mut i: usize = 0;
    assert(data@.take(0) =~= Seq::<u8>::empty());
    assert(line@ =~= "Raw data: "@ + visible_bytes(data@.take(0)));
    while i < data.len()
        invariant
            i <= data.len(),
            line@ == "Raw data: "@ + visible_bytes(data@.take(i as int)),
        decreases data.len() - i,
    {
        push_visible_byte(&mut line, data[i]);
        proof {
            assert(data@.take(i as int + 1).drop_last() =~= data@.take(i as int));
            assert(line@ =~= "Raw data: "@ + visible_bytes(data@.take(i as int + 1)));
        }
        i += 1;
    }
    assert(data@.take(i as int) =~= data@);
    line
}

impl TerminalRenderer {
    #[verifier::type_invariant]
    spec fn well_formed(&self) -> bool {
        self.screen@.rows == content_height(self.height, self.show_status_bar) && self.screen@.cols
            == self.width
    }

    /// A renderer for a window of `width` columns and `height` rows, with
    /// the status bar shown, the debug echo off and a blank screen.
    pub fn new(width: u16, height: u16) -> (renderer: TerminalRenderer)
        ensures
            renderer@ == (RendererView {
                screen: ScreenView::blank(content_height(height, true), width),
                width,
                height,
                title: "Shell Terminal"@,
                show_status_bar: true,
                raw_mode: false,
            }),
            renderer@.screen.is_blank(),
    {
        TerminalRenderer {
            screen: ScreenModel::new(content_rows(height, true), width),
            width,
            height,
            title: String::from_str("Shell Terminal"),
            show_status_bar: true,
            raw_mode: false,
        }
    }

    /// A renderer of a window without rows or columns, which holds nothing:
    /// no title, a screen without cells, and both flags off. It stands in
    /// for a renderer while that one is taken apart and put together anew.
    fn hollow() -> (renderer: TerminalRenderer)
        ensures
            renderer@ == (RendererView {
                screen: ScreenView::blank(0, 0),
                width: 0,
                height: 0,
                title: Seq::<char>::empty(),
                show_status_bar: false,
                raw_mode: false,
            }),
    {
        TerminalRenderer {
            screen: ScreenModel::new(0, 0),
            width: 0,
            height: 0,
            title: String::new(),
            show_status_bar: false,
            raw_mode: false,
        }
    }

    /// The size of the screen as (rows, columns): always that of the
    /// content area, the window less the rows of the chrome.
    pub fn screen_size(&self) -> (size: (u16, u16))
        ensures
            size == (self@.screen.rows, self@.screen.cols),
            size == (content_height(self@.height, self@.show_status_bar), self@.width),
            self@.screen_fits(),
    {
        proof {
            use_type_invariant(self);
        }
        self.screen.size()
    }

    /// The screen model, to read cells and cursor from.
    pub fn screen(&self) -> (screen: &ScreenModel)
        ensures
            screen@ == self@.screen,
    {
        &self.screen
    }

    /// The window's size as (width, height).
    pub fn window_size(&self) -> (size: (u16, u16))
        ensures
            size == (self@.width, self@.height),
    {
        (self.width, self.height)
    }

    /// The title that the next frame shows.
    pub fn title(&self) -> (title: &str)
        ensures
            title@ == self@.title,
    {
        self.title.as_str()
    }

    /// Whether the status bar is shown.
    pub fn status_bar_shown(&self) -> (shown: bool)
        ensures
            shown == self@.show_status_bar,
    {
        self.show_status_bar
    }

    /// Whether the debug echo is on.
    pub fn raw_mode(&self) -> (on: bool)
        ensures
            on == self@.raw_mode,
    {
        self.raw_mode
    }

    /// Keeps `title` for the next frame. Nothing is drawn.
    pub fn set_title(&mut self, title: String)
        ensures
            final(self)@ == (RendererView { title: title@, ..old(self)@ }),
    {
        proof {
            use_type_invariant(&*self);
        }
        self.title = title;
    }

    /// Shows the status bar if it was hidden and hides it if it was shown,
    /// and makes the screen blank at the new content height.
    pub fn toggle_status_bar(&mut self)
        ensures
            final(self)@ == old(self)@.status_bar_toggled(),
            final(self)@.screen.is_blank(),
    {
        let mut taken = TerminalRenderer::hollow();
        core::mem::swap(self, &mut taken);
        let TerminalRenderer { screen, width, height, title, show_status_bar, raw_mode } = taken;
        let show_status_bar = !show_status_bar;
        *self = TerminalRenderer {
            screen: ScreenModel::new(content_rows(height, show_status_bar), width),
            width,
            height,
            title,
            show_status_bar,
            raw_mode,
        };
    }

    /// Switches the debug echo, and makes the screen blank at the content
    /// height.
    pub fn toggle_raw_mode(&mut self)
        ensures
            final(self)@ == old(self)@.raw_mode_toggled(),
            final(self)@.screen.is_blank(),
    {
        let mut taken = TerminalRenderer::hollow();
        core::mem::swap(self, &mut taken);
        let TerminalRenderer { screen, width, height, title, show_status_bar, raw_mode } = taken;
        *self = TerminalRenderer {
            screen: ScreenModel::new(content_rows(height, show_status_bar), width),
            width,
            height,
            title,
            show_status_bar,
            raw_mode: !raw_mode,
        };
    }

    /// Gives the child's output to the screen model. With the debug echo
    /// on, returns the line that shows the bytes.
    pub fn process_output(&mut self, data: &[u8]) -> (echo: Option<String>)
        ensures
            final(self)@ == old(self)@.fed(data@),
            old(self)@.raw_mode ==> (echo matches Some(line) && line@ == debug_line(data@)),
            !old(self)@.raw_mode ==> echo is None,
    {
        proof {
            use_type_invariant(&*self);
        }
        let mut taken = TerminalRenderer::hollow();
        core::mem::swap(self, &mut taken);
        let TerminalRenderer { mut screen, width, height, title, show_status_bar, raw_mode } = taken;
        screen.process(data);
        *self = TerminalRenderer { screen, width, height, title, show_status_bar, raw_mode };
        if raw_mode {
            Some(debug_echo(data))
        } else {
            None
        }
    }

    /// Takes the window's new size and makes the screen blank at the new
    /// content size.
    pub fn resize(&mut self, width: u16, height: u16)
        ensures
            final(self)@ == old(self)@.resized(width, height),
            final(self)@.screen.is_blank(),
    {
        let mut taken = TerminalRenderer::hollow();
        core::mem::swap(self, &mut taken);
        let TerminalRenderer { screen, width: _, height: _, title, show_status_bar, raw_mode } = taken;
        *self = TerminalRenderer {
            screen: ScreenModel::new(content_rows(height, show_status_bar), width),
            width,
            height,
            title,
            show_status_bar,
            raw_mode,
        };
    }

    /// The frame that shows the renderer when the clock reads `clock`.
    pub fn render_at(&self, clock: &str) -> (frame: Vec<DrawOp>)
        ensures
            op_views(frame@) == self@.frame(clock@),
    {
        let mut frame: Vec<DrawOp> = Vec::new();
        frame.push(DrawOp::Clear);
        assert(op_views(frame@) =~= seq![DrawOpView::Clear]);
        push_title_bar(&mut frame, self.width, self.title.as_str());
        push_content(&mut frame, &self.screen);
        let ghost content = op_views(frame@);
        frame.push(DrawOp::ResetColor);
        assert(op_views(frame@) =~= content + seq![DrawOpView::ResetColor]);
        if self.show_status_bar {
            push_status_bar(&mut frame, self.width, self.height, clock);
        }
        assert(op_views(frame@) =~= content + seq![DrawOpView::ResetColor] + self@.status_bar(
            clock@,
        ));
        push_cursor(&mut frame, &self.screen);
        assert(op_views(frame@) =~= self@.frame(clock@));
        frame
    }

    /// The frame that shows the renderer now: the frame for the time that
    /// the clock reads.
    pub fn render(&self) -> (frame: Vec<DrawOp>)
        ensures
            exists|clock: Seq<char>| op_views(frame@) == self@.frame(clock),
    {
        let clock = clock_text();
        self.render_at(clock.as_str())
    }
}

/// In a frame no colour instruction names the colour that is set already:
/// a foreground or background instruction is sent only where the colour of
/// the cell differs from that of the cell drawn before it.
pub proof fn lemma_frame_sets_colors_only_on_change(renderer: RendererView, clock: Seq<char>)
    ensures
        sets_colors_only_on_change(renderer.frame(clock), Pen::unset()),
{
    let pen = Pen::unset();
    let clear = seq![DrawOpView::Clear];
    let title = title_bar_ops(renderer.width, renderer.title);
    let content = content_ops(renderer.screen);
    let reset = seq![DrawOpView::ResetColor];
    let status = renderer.status_bar(clock);
    let cursor = seq![cursor_op(renderer.screen)];
    lemma_thrifty_plain(pen, DrawOpView::Clear);
    lemma_thrifty_title_bar(renderer.width, renderer.title);
    lemma_thrifty_concat(pen, clear, title);
    lemma_thrifty_content(renderer.screen);
    lemma_thrifty_concat(pen, clear + title, content);
    lemma_thrifty_then_reset(pen, clear + title + content);
    if renderer.show_status_bar {
        lemma_thrifty_status_bar(renderer.width, renderer.height, clock);
    } else {
        assert(sets_colors_only_on_change(status, pen));
        assert(pen.after_all(status) == pen);
    }
    lemma_thrifty_concat(pen, clear + title + content + reset, status);
    assert(keeps_pen(cursor_op(renderer.screen)));
    lemma_thrifty_plain(pen, cursor_op(renderer.screen));
    lemma_thrifty_concat(pen, clear + title + content + reset + status, cursor);
}

} // verus!
