//! Drawing instructions and the layout of a frame: title bar, content
//! rows, status bar and cursor.

use crate::color::{device_color, map_vt100_color, Color};
use crate::screen::{cell_view, Cell, CellView, ScreenModel, ScreenView};
use crate::text::{decimal, push_decimal};
use vstd::prelude::*;
use vstd::string::{StrSliceExecFns, StringExecFns};

verus! {

/// One instruction to the output device.
#[derive(Clone, Debug, PartialEq, Eq)]
pub enum DrawOp {
    /// Clear the whole display.
    Clear,
    /// Move the cursor to the given column and row.
    MoveTo(u16, u16),
    /// Draw what follows in the given foreground colour.
    SetForeground(Color),
    /// Draw what follows on the given background colour.
    SetBackground(Color),
    /// Write the text at the cursor.
    Print(String),
    /// Go back to the device's default colours.
    ResetColor,
}

/// A drawing instruction as a mathematical value.
pub enum DrawOpView {
    Clear,
    MoveTo(u16, u16),
    SetForeground(Color),
    SetBackground(Color),
    Print(Seq<char>),
    ResetColor,
}

impl View for DrawOp {
    type V = DrawOpView;

    open spec fn view(&self) -> DrawOpView {
        match *self {
            DrawOp::Clear => DrawOpView::Clear,
            DrawOp::MoveTo(column, row) => DrawOpView::MoveTo(column, row),
            DrawOp::SetForeground(c) => DrawOpView::SetForeground(c),
            DrawOp::SetBackground(c) => DrawOpView::SetBackground(c),
            DrawOp::Print(text) => DrawOpView::Print(text@),
            DrawOp::ResetColor => DrawOpView::ResetColor,
        }
    }
}

/// The views of a sequence of instructions, one for one.
pub open spec fn op_views(ops: Seq<DrawOp>) -> Seq<DrawOpView> {
    Seq::new(ops.len(), |i: int| ops[i]@)
}

/// The colours that the device draws in, as far as the instructions sent
/// so far have set them.
#[derive(Clone, Copy, Debug)]
pub struct Pen {
    pub fg: Option<Color>,
    pub bg: Option<Color>,
}

impl Pen {
    /// The pen of a device whose colours have not been set.
    pub open spec fn unset() -> Pen {
        Pen { fg: None, bg: None }
    }

    /// This pen after the device has carried out `op`.
    pub open spec fn after(self, op: DrawOpView) -> Pen {
        match op {
            DrawOpView::SetForeground(c) => Pen { fg: Some(c), bg: self.bg },
            DrawOpView::SetBackground(c) => Pen { fg: self.fg, bg: Some(c) },
            DrawOpView::ResetColor => Pen::unset(),
            _ => self,
        }
    }

    /// This pen after the device has carried out `ops` in turn.
    pub open spec fn after_all(self, ops: Seq<DrawOpView>) -> Pen
        decreases ops.len(),
    {
        if ops.len() == 0 {
            self
        } else {
            self.after_all(ops.drop_last()).after(ops.last())
        }
    }

    /// Whether `op` changes something for a device that draws with this
    /// pen: a colour instruction does so unless it names the colour that
    /// is set already.
    pub open spec fn is_changed_by(self, op: DrawOpView) -> bool {
        match op {
            DrawOpView::SetForeground(c) => self.fg != Some(c),
            DrawOpView::SetBackground(c) => self.bg != Some(c),
            _ => true,
        }
    }
}

/// Whether no colour instruction of `ops` names the colour that the
/// instructions before it have left set, for a device that starts with the
/// pen `pen`.
pub open spec fn sets_colors_only_on_change(ops: Seq<DrawOpView>, pen: Pen) -> bool {
    forall|j: int| 0 <= j < ops.len() ==> pen.after_all(ops.take(j)).is_changed_by(#[trigger] ops[j])
}

/// The instruction that draws one blank.
pub open spec fn blank() -> DrawOpView {
    DrawOpView::Print(seq![' '])
}

/// `n` blanks, each drawn by its own instruction.
pub open spec fn blanks(n: nat) -> Seq<DrawOpView> {
    Seq::new(n, |i: int| blank())
}

/// The text of the title bar: the title with a blank on either side.
pub open spec fn title_label(title: Seq<char>) -> Seq<char> {
    seq![' '] + title + seq![' ']
}

/// The number of blanks before the title label, which centres it: half of
/// what the width leaves beside the label's length in bytes of UTF-8, and
/// none where the label is as wide as the bar or wider.
pub open spec fn title_indent(width: u16, title: Seq<char>) -> nat {
    let length = vstd::utf8::encode_utf8(title_label(title)).len() as usize;
    if width > length {
        ((width - length) / 2) as nat
    } else {
        0
    }
}

/// A bar in row `row`: a move to its start, the two colours, what is
/// drawn in them, and the default colours again.
pub open spec fn bar_ops(row: u16, bg: Color, fg: Color, body: Seq<DrawOpView>) -> Seq<
    DrawOpView,
> {
    seq![
        DrawOpView::MoveTo(0, row),
        DrawOpView::SetBackground(bg),
        DrawOpView::SetForeground(fg),
    ] + body + seq![DrawOpView::ResetColor]
}

/// What the title bar draws: blanks over the whole width, then, from the
/// start of the row again, the blanks that centre the label, and the
/// label.
pub open spec fn title_bar_body(width: u16, title: Seq<char>) -> Seq<DrawOpView> {
    blanks(width as nat) + seq![DrawOpView::MoveTo(0, 0)] + blanks(title_indent(width, title))
        + seq![DrawOpView::Print(title_label(title))]
}

/// The title bar, in row 0: white on dark blue over the whole width, the
/// label centred, then the default colours again.
pub open spec fn title_bar_ops(width: u16, title: Seq<char>) -> Seq<DrawOpView> {
    bar_ops(0, Color::DarkBlue, Color::White, title_bar_body(width, title))
}

/// The instruction that sets the foreground to `color`, unless the pen
/// holds it already.
pub open spec fn foreground_ops(color: Color, pen: Pen) -> Seq<DrawOpView> {
    if pen.fg == Some(color) {
        Seq::empty()
    } else {
        seq![DrawOpView::SetForeground(color)]
    }
}

/// The instruction that sets the background to `color`, unless the pen
/// holds it already.
pub open spec fn background_ops(color: Color, pen: Pen) -> Seq<DrawOpView> {
    if pen.bg == Some(color) {
        Seq::empty()
    } else {
        seq![DrawOpView::SetBackground(color)]
    }
}

/// What a cell shows: its text, or a blank where it has none.
pub open spec fn cell_text(cell: CellView) -> Seq<char> {
    if cell.text.len() == 0 {
        seq![' ']
    } else {
        cell.text
    }
}

/// The instructions that draw one cell with the pen `pen`: a colour is set
/// only where the cell's colour differs from the pen's. An absent cell is
/// a blank in whatever colours are set.
pub open spec fn cell_ops(cell: Option<CellView>, pen: Pen) -> Seq<DrawOpView> {
    match cell {
        Some(c) => foreground_ops(device_color(c.fg), pen) + background_ops(
            device_color(c.bg),
            pen,
        ) + seq![DrawOpView::Print(cell_text(c))],
        None => seq![blank()],
    }
}

/// The pen after a cell has been drawn.
pub open spec fn pen_after_cell(cell: Option<CellView>, pen: Pen) -> Pen {
    match cell {
        Some(c) => Pen { fg: Some(device_color(c.fg)), bg: Some(device_color(c.bg)) },
        None => pen,
    }
}

/// The pen after the first `n` cells of row `y` have been drawn, starting
/// with the pen `pen`.
pub open spec fn row_pen(screen: ScreenView, y: u16, n: nat, pen: Pen) -> Pen
    decreases n,
{
    if n == 0 {
        pen
    } else {
        pen_after_cell(screen.cell(y, (n - 1) as u16), row_pen(screen, y, (n - 1) as nat, pen))
    }
}

/// The instructions that draw the first `n` cells of row `y`, starting
/// with the pen `pen`.
pub open spec fn row_ops(screen: ScreenView, y: u16, n: nat, pen: Pen) -> Seq<DrawOpView>
    decreases n,
{
    if n == 0 {
        Seq::empty()
    } else {
        row_ops(screen, y, (n - 1) as nat, pen) + cell_ops(
            screen.cell(y, (n - 1) as u16),
            row_pen(screen, y, (n - 1) as nat, pen),
        )
    }
}

/// The pen after the first `m` rows have been drawn.
pub open spec fn rows_pen(screen: ScreenView, m: nat) -> Pen
    decreases m,
{
    if m == 0 {
        Pen::unset()
    } else {
        row_pen(screen, (m - 1) as u16, screen.cols as nat, rows_pen(screen, (m - 1) as nat))
    }
}

/// The instructions that draw the first `m` rows of the screen below the
/// title bar: for each row a move to its start, one row further down on
/// the device, and then its cells. The pen is carried from row to row.
pub open spec fn rows_ops(screen: ScreenView, m: nat) -> Seq<DrawOpView>
    decreases m,
{
    if m == 0 {
        Seq::empty()
    } else {
        rows_ops(screen, (m - 1) as nat) + seq![DrawOpView::MoveTo(0, m as u16)] + row_ops(
            screen,
            (m - 1) as u16,
            screen.cols as nat,
            rows_pen(screen, (m - 1) as nat),
        )
    }
}

/// The instructions that draw all rows of the screen.
pub open spec fn content_ops(screen: ScreenView) -> Seq<DrawOpView> {
    rows_ops(screen, screen.rows as nat)
}

/// The shortcuts that the status bar lists, and after them the clock.
pub open spec fn status_legend(clock: Seq<char>) -> Seq<char> {
    " Ctrl+Q: Quit | Ctrl+B: Toggle Status Bar | "@ + clock
}

/// The size as the status bar shows it: width, `x`, height and a blank.
pub open spec fn size_label(width: u16, height: u16) -> Seq<char> {
    decimal(width as nat) + seq!['x'] + decimal(height as nat) + seq![' ']
}

/// The column at which the size label starts, so that it ends at the right
/// edge; column 0 where the label is wider than the bar.
pub open spec fn size_column(width: u16, height: u16) -> u16 {
    if width > size_label(width, height).len() {
        (width - size_label(width, height).len()) as u16
    } else {
        0
    }
}

/// What the status bar draws in row `row`: blanks over the whole width,
/// then the legend with the clock from the start of the row, and the size
/// at the right.
pub open spec fn status_bar_body(width: u16, height: u16, row: u16, clock: Seq<char>) -> Seq<
    DrawOpView,
> {
    blanks(width as nat) + seq![
        DrawOpView::MoveTo(0, row),
        DrawOpView::Print(status_legend(clock)),
        DrawOpView::MoveTo(size_column(width, height), row),
        DrawOpView::Print(size_label(width, height)),
    ]
}

/// The status bar, in the last row `height - 1`: white on dark grey over
/// the whole width, the legend with the clock at the left, the size at the
/// right, then the default colours again. A window without a row has no
/// status bar.
pub open spec fn status_bar_ops(width: u16, height: u16, clock: Seq<char>) -> Seq<DrawOpView> {
    if height == 0 {
        Seq::empty()
    } else {
        bar_ops(
            (height - 1) as u16,
            Color::DarkGrey,
            Color::White,
            status_bar_body(width, height, (height - 1) as u16, clock),
        )
    }
}

/// The instruction that puts the device's cursor where the screen's cursor
/// is: the same column, and one row further down because of the title bar
/// (the last row that the device can address, if there is no further one).
pub open spec fn cursor_op(screen: ScreenView) -> DrawOpView {
    let (row, column) = screen.cursor();
    DrawOpView::MoveTo(
        column,
        if row < u16::MAX {
            (row + 1) as u16
        } else {
            u16::MAX
        },
    )
}

/// `ops` with `op` at its end has the views of `ops` and then the view of
/// `op`.
pub proof fn lemma_op_views_push(ops: Seq<DrawOp>, op: DrawOp)
    ensures
        op_views(ops.push(op)) == op_views(ops).push(op@),
{
    assert(op_views(ops.push(op)) =~= op_views(ops).push(op@));
}

/// Appends one blank.
fn push_blank(ops: &mut Vec<DrawOp>)
    ensures
        op_views(final(ops)@) == op_views(old(ops)@).push(blank()),
{
    proof {
        reveal_strlit(" ");
    }
    let text = String::from_str(" ");
    assert(text@ =~= seq![' ']);
    let op = DrawOp::Print(text);
    proof {
        lemma_op_views_push(ops@, op);
    }
    ops.push(op);
}

/// Appends `n` blanks.
fn push_blanks(ops: &mut Vec<DrawOp>, n: usize)
    ensures
        op_views(final(ops)@) == op_views(old(ops)@) + blanks(n as nat),
{
    let mut i: usize = 0;
    assert(op_views(ops@) =~= op_views(old(ops)@) + blanks(0));
    while i < n
        invariant
            i <= n,
            op_views(ops@) == op_views(old(ops)@) + blanks(i as nat),
        decreases n - i,
    {
        push_blank(ops);
        i += 1;
        assert(op_views(ops@) =~= op_views(old(ops)@) + blanks(i as nat));
    }
}

/// Appends `op`, which holds no text.
fn push_op(ops: &mut Vec<DrawOp>, op: DrawOp)
    ensures
        op_views(final(ops)@) == op_views(old(ops)@).push(op@),
{
    proof {
        lemma_op_views_push(ops@, op);
    }
    ops.push(op);
}

/// Appends the title bar.
pub fn push_title_bar(ops: &mut Vec<DrawOp>, width: u16, title: &str)
    ensures
        op_views(final(ops)@) == op_views(old(ops)@) + title_bar_ops(width, title@),
{
    proof {
        reveal_strlit(" ");
    }
    let mut label = String::from_str(" ");
    label.append(title);
    label.append(" ");
    assert(label@ =~= title_label(title@));
    let length: usize = label.as_str().len();
    let indent: usize = if (width as usize) > length {
        (width as usize - length) / 2
    } else {
        0
    };
    assert(indent == title_indent(width, title@));
    push_op(ops, DrawOp::MoveTo(0, 0));
    push_op(ops, DrawOp::SetBackground(Color::DarkBlue));
    push_op(ops, DrawOp::SetForeground(Color::White));
    push_blanks(ops, width as usize);
    push_op(ops, DrawOp::MoveTo(0, 0));
    push_blanks(ops, indent);
    push_op(ops, DrawOp::Print(label));
    push_op(ops, DrawOp::ResetColor);
    assert(op_views(ops@) =~= op_views(old(ops)@) + title_bar_ops(width, title@));
}

/// Appends the instructions for one cell and moves the pen on.
fn push_cell(ops: &mut Vec<DrawOp>, cell: Option<Cell>, pen: &mut Pen)
    ensures
        op_views(final(ops)@) == op_views(old(ops)@) + cell_ops(cell_view(cell), *old(pen)),
        *final(pen) == pen_after_cell(cell_view(cell), *old(pen)),
{
    match cell {
        Some(c) => {
            let ghost v = c@;
            let fg = map_vt100_color(c.fg);
            let emit_fg = match pen.fg {
                Some(current) => current != fg,
                None => true,
            };
            if emit_fg {
                push_op(ops, DrawOp::SetForeground(fg));
                pen.fg = Some(fg);
            }
            let bg = map_vt100_color(c.bg);
            let emit_bg = match pen.bg {
                Some(current) => current != bg,
                None => true,
            };
            if emit_bg {
                push_op(ops, DrawOp::SetBackground(bg));
                pen.bg = Some(bg);
            }
            if c.text.as_str().is_empty() {
                push_blank(ops);
            } else {
                push_op(ops, DrawOp::Print(c.text));
            }
            assert(op_views(ops@) =~= op_views(old(ops)@) + cell_ops(Some(v), *old(pen)));
        },
        None => {
            push_blank(ops);
            assert(op_views(ops@) =~= op_views(old(ops)@) + cell_ops(None, *old(pen)));
        },
    }
}

/// Appends the instructions for all rows of the screen.
pub fn push_content(ops: &mut Vec<DrawOp>, screen: &ScreenModel)
    ensures
        op_views(final(ops)@) == op_views(old(ops)@) + content_ops(screen@),
{
    let (rows, cols) = screen.size();
    let mut pen = Pen { fg: None, bg: None };
    let mut y: u16 = 0;
    assert(op_views(ops@) =~= op_views(old(ops)@) + rows_ops(screen@, 0));
    while y < rows
        invariant
            y <= rows,
            rows == screen@.rows,
            cols == screen@.cols,
            pen == rows_pen(screen@, y as nat),
            op_views(ops@) == op_views(old(ops)@) + rows_ops(screen@, y as nat),
        decreases rows - y,
    {
        let ghost before = op_views(ops@);
        let ghost start = pen;
        push_op(ops, DrawOp::MoveTo(0, y + 1));
        let mut x: u16 = 0;
        assert(op_views(ops@) =~= before + seq![DrawOpView::MoveTo(0, (y + 1) as u16)] + row_ops(
            screen@,
            y,
            0,
            start,
        ));
        while x < cols
            invariant
                x <= cols,
                cols == screen@.cols,
                pen == row_pen(screen@, y, x as nat, start),
                op_views(ops@) == before + seq![DrawOpView::MoveTo(0, (y + 1) as u16)] + row_ops(
                    screen@,
                    y,
                    x as nat,
                    start,
                ),
            decreases cols - x,
        {
            let ghost so_far = op_views(ops@);
            let cell = screen.cell(y, x);
            push_cell(ops, cell, &mut pen);
            x += 1;
            assert(op_views(ops@) =~= before + seq![DrawOpView::MoveTo(0, (y + 1) as u16)]
                + row_ops(screen@, y, x as nat, start));
        }
        y += 1;
        assert(op_views(ops@) =~= op_views(old(ops)@) + rows_ops(screen@, y as nat));
    }
}

/// Appends the status bar.
pub fn push_status_bar(ops: &mut Vec<DrawOp>, width: u16, height: u16, clock: &str)
    ensures
        op_views(final(ops)@) == op_views(old(ops)@) + status_bar_ops(width, height, clock@),
{
    if height == 0 {
        assert(op_views(ops@) =~= op_views(old(ops)@) + status_bar_ops(width, height, clock@));
        return ;
    }
    let row: u16 = height - 1;
    let mut legend = String::from_str(" Ctrl+Q: Quit | Ctrl+B: Toggle Status Bar | ");
    legend.append(clock);
    let mut size = String::new();
    push_decimal(&mut size, width);
    size.push('x');
    push_decimal(&mut size, height);
    size.push(' ');
    assert(size@ =~= size_label(width, height));
    let length: usize = size.as_str().unicode_len();
    let column: u16 = if (width as usize) > length {
        (width as usize - length) as u16
    } else {
        0
    };
    push_op(ops, DrawOp::MoveTo(0, row));
    push_op(ops, DrawOp::SetBackground(Color::DarkGrey));
    push_op(ops, DrawOp::SetForeground(Color::White));
    push_blanks(ops, width as usize);
    push_op(ops, DrawOp::MoveTo(0, row));
    push_op(ops, DrawOp::Print(legend));
    push_op(ops, DrawOp::MoveTo(column, row));
    push_op(ops, DrawOp::Print(size));
    push_op(ops, DrawOp::ResetColor);
    assert(op_views(ops@) =~= op_views(old(ops)@) + status_bar_ops(width, height, clock@));
}

/// Appends the instruction that places the cursor.
pub fn push_cursor(ops: &mut Vec<DrawOp>, screen: &ScreenModel)
    ensures
        op_views(final(ops)@) == op_views(old(ops)@).push(cursor_op(screen@)),
{
    let (row, column) = screen.cursor_position();
    let device_row: u16 = if row < u16::MAX {
        row + 1
    } else {
        u16::MAX
    };
    push_op(ops, DrawOp::MoveTo(column, device_row));
}

/// Whether `op` leaves the pen as it is: it neither sets nor resets a
/// colour.
pub open spec fn keeps_pen(op: DrawOpView) -> bool {
    op is Clear || op is MoveTo || op is Print
}

/// The pen after `ops` and then `op`.
proof fn lemma_after_push(pen: Pen, ops: Seq<DrawOpView>, op: DrawOpView)
    ensures
        pen.after_all(ops.push(op)) == pen.after_all(ops).after(op),
{
    assert(ops.push(op).drop_last() =~= ops);
}

/// The pen after `first` and then `second` is the pen after the two as one
/// sequence.
proof fn lemma_after_concat(pen: Pen, first: Seq<DrawOpView>, second: Seq<DrawOpView>)
    ensures
        pen.after_all(first + second) == pen.after_all(first).after_all(second),
    decreases second.len(),
{
    if second.len() == 0 {
        assert(first + second =~= first);
    } else {
        lemma_after_concat(pen, first, second.drop_last());
        assert((first + second).drop_last() =~= first + second.drop_last());
    }
}

/// Instructions that leave the pen as it is set no colour at all.
proof fn lemma_plain_ops(pen: Pen, ops: Seq<DrawOpView>)
    requires
        forall|j: int| 0 <= j < ops.len() ==> keeps_pen(#[trigger] ops[j]),
    ensures
        pen.after_all(ops) == pen,
        sets_colors_only_on_change(ops, pen),
    decreases ops.len(),
{
    if ops.len() > 0 {
        lemma_plain_ops(pen, ops.drop_last());
        assert(keeps_pen(ops.last()));
    }
}

/// Two sequences that each set colours only on change do so one after the
/// other, where the second starts with the pen that the first leaves.
pub proof fn lemma_thrifty_concat(pen: Pen, first: Seq<DrawOpView>, second: Seq<DrawOpView>)
    requires
        sets_colors_only_on_change(first, pen),
        sets_colors_only_on_change(second, pen.after_all(first)),
    ensures
        sets_colors_only_on_change(first + second, pen),
        pen.after_all(first + second) == pen.after_all(first).after_all(second),
{
    lemma_after_concat(pen, first, second);
    let all = first + second;
    assert forall|j: int| 0 <= j < all.len() implies pen.after_all(all.take(j)).is_changed_by(
        #[trigger] all[j],
    ) by {
        if j < first.len() {
            assert(all.take(j) =~= first.take(j));
            assert(all[j] == first[j]);
        } else {
            let k = j - first.len();
            assert(all.take(j) =~= first + second.take(k));
            lemma_after_concat(pen, first, second.take(k));
            assert(all[j] == second[k]);
        }
    }
}

/// One instruction sets colours only on change where it changes the pen.
proof fn lemma_thrifty_single(pen: Pen, op: DrawOpView)
    requires
        pen.is_changed_by(op),
    ensures
        sets_colors_only_on_change(seq![op], pen),
        pen.after_all(seq![op]) == pen.after(op),
{
    let ops = seq![op];
    assert(ops.drop_last() =~= Seq::<DrawOpView>::empty());
    assert(pen.after_all(ops.drop_last()) == pen);
    assert forall|j: int| 0 <= j < ops.len() implies pen.after_all(ops.take(j)).is_changed_by(
        #[trigger] ops[j],
    ) by {
        assert(ops.take(0) =~= Seq::<DrawOpView>::empty());
    }
}

/// The instructions of a cell set colours only on change and leave the
/// pen at the cell's colours.
proof fn lemma_thrifty_cell(cell: Option<CellView>, pen: Pen)
    ensures
        sets_colors_only_on_change(cell_ops(cell, pen), pen),
        pen.after_all(cell_ops(cell, pen)) == pen_after_cell(cell, pen),
{
    match cell {
        Some(c) => {
            let fg = foreground_ops(device_color(c.fg), pen);
            let bg = background_ops(device_color(c.bg), pen);
            let text = seq![DrawOpView::Print(cell_text(c))];
            if pen.fg == Some(device_color(c.fg)) {
                lemma_plain_ops(pen, fg);
            } else {
                lemma_thrifty_single(pen, DrawOpView::SetForeground(device_color(c.fg)));
            }
            let pen1 = pen.after_all(fg);
            assert(pen1 == Pen { fg: Some(device_color(c.fg)), bg: pen.bg });
            if pen.bg == Some(device_color(c.bg)) {
                lemma_plain_ops(pen1, bg);
            } else {
                lemma_thrifty_single(pen1, DrawOpView::SetBackground(device_color(c.bg)));
            }
            lemma_thrifty_concat(pen, fg, bg);
            let pen2 = pen.after_all(fg + bg);
            assert(pen2 == pen_after_cell(cell, pen));
            lemma_plain_ops(pen2, text);
            lemma_thrifty_concat(pen, fg + bg, text);
        },
        None => {
            lemma_plain_ops(pen, seq![blank()]);
        },
    }
}

/// The instructions of a row set colours only on change and leave the pen
/// that `row_pen` gives.
proof fn lemma_thrifty_row(screen: ScreenView, y: u16, n: nat, pen: Pen)
    ensures
        sets_colors_only_on_change(row_ops(screen, y, n, pen), pen),
        pen.after_all(row_ops(screen, y, n, pen)) == row_pen(screen, y, n, pen),
    decreases n,
{
    if n == 0 {
        lemma_plain_ops(pen, Seq::<DrawOpView>::empty());
    } else {
        let before = (n - 1) as nat;
        lemma_thrifty_row(screen, y, before, pen);
        lemma_thrifty_cell(screen.cell(y, before as u16), row_pen(screen, y, before, pen));
        lemma_thrifty_concat(
            pen,
            row_ops(screen, y, before, pen),
            cell_ops(screen.cell(y, before as u16), row_pen(screen, y, before, pen)),
        );
    }
}

/// The instructions of the first `m` rows set colours only on change, for
/// a device whose colours are not set, and leave the pen that `rows_pen`
/// gives.
proof fn lemma_thrifty_rows(screen: ScreenView, m: nat)
    ensures
        sets_colors_only_on_change(rows_ops(screen, m), Pen::unset()),
        Pen::unset().after_all(rows_ops(screen, m)) == rows_pen(screen, m),
    decreases m,
{
    let pen = Pen::unset();
    if m == 0 {
        lemma_plain_ops(pen, Seq::<DrawOpView>::empty());
    } else {
        let before = (m - 1) as nat;
        lemma_thrifty_rows(screen, before);
        let head = rows_ops(screen, before);
        let step = seq![DrawOpView::MoveTo(0, m as u16)];
        let row = row_ops(screen, before as u16, screen.cols as nat, rows_pen(screen, before));
        lemma_plain_ops(rows_pen(screen, before), step);
        lemma_thrifty_concat(pen, head, step);
        lemma_thrifty_row(screen, before as u16, screen.cols as nat, rows_pen(screen, before));
        lemma_thrifty_concat(pen, head + step, row);
    }
}

/// A bar sets colours only on change and ends with the colours reset: it
/// moves, sets a background and a foreground on a device whose colours are
/// not set, draws, and resets.
proof fn lemma_thrifty_bar(row: u16, bg: Color, fg: Color, body: Seq<DrawOpView>)
    requires
        forall|j: int| 0 <= j < body.len() ==> keeps_pen(#[trigger] body[j]),
    ensures
        sets_colors_only_on_change(bar_ops(row, bg, fg, body), Pen::unset()),
        Pen::unset().after_all(bar_ops(row, bg, fg, body)) == Pen::unset(),
{
    let pen = Pen::unset();
    let a = seq![DrawOpView::MoveTo(0, row)];
    let b = seq![DrawOpView::SetBackground(bg)];
    let c = seq![DrawOpView::SetForeground(fg)];
    let d = seq![DrawOpView::ResetColor];
    lemma_thrifty_single(pen, DrawOpView::MoveTo(0, row));
    lemma_thrifty_single(pen, DrawOpView::SetBackground(bg));
    lemma_thrifty_concat(pen, a, b);
    let pen1 = pen.after_all(a + b);
    lemma_thrifty_single(pen1, DrawOpView::SetForeground(fg));
    lemma_thrifty_concat(pen, a + b, c);
    let pen2 = pen.after_all(a + b + c);
    lemma_plain_ops(pen2, body);
    lemma_thrifty_concat(pen, a + b + c, body);
    lemma_thrifty_single(pen2, DrawOpView::ResetColor);
    lemma_thrifty_concat(pen, a + b + c + body, d);
    assert(a + b + c =~= seq![
        DrawOpView::MoveTo(0, row),
        DrawOpView::SetBackground(bg),
        DrawOpView::SetForeground(fg),
    ]);
}

/// What the title bar draws sets no colour.
proof fn lemma_title_bar_body_plain(width: u16, title: Seq<char>)
    ensures
        forall|j: int|
            0 <= j < title_bar_body(width, title).len() ==> keeps_pen(
                #[trigger] title_bar_body(width, title)[j],
            ),
{
}

/// What the status bar draws sets no colour.
proof fn lemma_status_bar_body_plain(width: u16, height: u16, row: u16, clock: Seq<char>)
    ensures
        forall|j: int|
            0 <= j < status_bar_body(width, height, row, clock).len() ==> keeps_pen(
                #[trigger] status_bar_body(width, height, row, clock)[j],
            ),
{
}

/// The title bar sets colours only on change, for a device whose colours
/// are not set, and leaves them reset.
pub proof fn lemma_thrifty_title_bar(width: u16, title: Seq<char>)
    ensures
        sets_colors_only_on_change(title_bar_ops(width, title), Pen::unset()),
        Pen::unset().after_all(title_bar_ops(width, title)) == Pen::unset(),
{
    lemma_title_bar_body_plain(width, title);
    lemma_thrifty_bar(0, Color::DarkBlue, Color::White, title_bar_body(width, title));
}

/// The status bar sets colours only on change, for a device whose colours
/// are not set, and leaves them reset.
pub proof fn lemma_thrifty_status_bar(width: u16, height: u16, clock: Seq<char>)
    ensures
        sets_colors_only_on_change(status_bar_ops(width, height, clock), Pen::unset()),
        Pen::unset().after_all(status_bar_ops(width, height, clock)) == Pen::unset(),
{
    if height == 0 {
        lemma_plain_ops(Pen::unset(), Seq::<DrawOpView>::empty());
    } else {
        let row = (height - 1) as u16;
        lemma_status_bar_body_plain(width, height, row, clock);
        lemma_thrifty_bar(
            row,
            Color::DarkGrey,
            Color::White,
            status_bar_body(width, height, row, clock),
        );
    }
}

/// A cell whose colours are those of the cell drawn before it is drawn
/// without any colour instruction: only its text is sent.
pub proof fn lemma_same_colours_need_no_instruction(previous: CellView, next: CellView, pen: Pen)
    requires
        device_color(next.fg) == device_color(previous.fg),
        device_color(next.bg) == device_color(previous.bg),
    ensures
        cell_ops(Some(next), pen_after_cell(Some(previous), pen)) == seq![
            DrawOpView::Print(cell_text(next)),
        ],
{
    let after = pen_after_cell(Some(previous), pen);
    assert(cell_ops(Some(next), after) =~= seq![DrawOpView::Print(cell_text(next))]);
}

/// While the content rows are drawn, a colour instruction is sent only
/// where the colour of the cell differs from that of the cell drawn before
/// it: no instruction names the colour that is set already. The rows leave
/// the pen at the colours of the last cell drawn.
pub proof fn lemma_thrifty_content(screen: ScreenView)
    ensures
        sets_colors_only_on_change(content_ops(screen), Pen::unset()),
        Pen::unset().after_all(content_ops(screen)) == rows_pen(screen, screen.rows as nat),
{
    lemma_thrifty_rows(screen, screen.rows as nat);
}

/// A sequence that sets colours only on change still does so with a reset
/// after it, and then leaves the colours reset.
pub proof fn lemma_thrifty_then_reset(pen: Pen, ops: Seq<DrawOpView>)
    requires
        sets_colors_only_on_change(ops, pen),
    ensures
        sets_colors_only_on_change(ops + seq![DrawOpView::ResetColor], pen),
        pen.after_all(ops + seq![DrawOpView::ResetColor]) == Pen::unset(),
{
    lemma_thrifty_single(pen.after_all(ops), DrawOpView::ResetColor);
    lemma_thrifty_concat(pen, ops, seq![DrawOpView::ResetColor]);
}

/// One instruction that moves, clears or prints sets no colour.
pub proof fn lemma_thrifty_plain(pen: Pen, op: DrawOpView)
    requires
        keeps_pen(op),
    ensures
        sets_colors_only_on_change(seq![op], pen),
        pen.after_all(seq![op]) == pen,
{
    lemma_plain_ops(pen, seq![op]);
}

} // verus!
