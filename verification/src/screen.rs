//! The screen model: a grid of styled cells and a cursor, kept up to date
//! from the child's output by a `vt100` parser.

use crate::color::CellColor;
use vstd::prelude::*;

verus! {

/// How the text of a cell is to be set apart.
#[derive(Clone, Copy, Debug, PartialEq, Eq, Structural)]
pub struct CellAttributes {
    pub bold: bool,
    pub italic: bool,
    pub underline: bool,
    /// Foreground and background change places.
    pub inverse: bool,
}

/// One cell of the grid: its text, the colours it is drawn in, and its
/// attributes.
#[derive(Clone, Debug, PartialEq, Eq)]
pub struct Cell {
    /// The character of the cell with any combining characters that follow
    /// it; empty where nothing was written.
    pub text: String,
    pub fg: CellColor,
    pub bg: CellColor,
    pub attributes: CellAttributes,
}

/// A cell as a mathematical value.
pub struct CellView {
    pub text: Seq<char>,
    pub fg: CellColor,
    pub bg: CellColor,
    pub attributes: CellAttributes,
}

impl View for Cell {
    type V = CellView;

    open spec fn view(&self) -> CellView {
        CellView { text: self.text@, fg: self.fg, bg: self.bg, attributes: self.attributes }
    }
}

/// The cell that nothing has been written to: no text, the default
/// colours, no attribute.
pub open spec fn blank_cell() -> CellView {
    CellView {
        text: Seq::empty(),
        fg: CellColor::Default,
        bg: CellColor::Default,
        attributes: CellAttributes { bold: false, italic: false, underline: false, inverse: false },
    }
}

/// The cell at (`row`, `col`) of a grid of `rows` by `cols` cells that
/// nothing has been written to: a blank cell within the grid, no cell
/// outside.
pub open spec fn untouched_cell(rows: u16, cols: u16, row: u16, col: u16) -> Option<CellView> {
    if row < rows && col < cols {
        Some(blank_cell())
    } else {
        None
    }
}

/// The place of the cursor before anything has moved it: row 0, column 0.
pub open spec fn origin() -> (u16, u16) {
    (0u16, 0u16)
}

/// The fewest rows of a grid that a parser can keep: with one row it fails
/// when text wraps.
pub const MIN_ROWS: u16 = 2;

/// The fewest columns of a grid that a parser can keep: the widest
/// character takes three.
pub const MIN_COLS: u16 = 3;

/// The most columns of a grid that a parser can keep: a tab moves the
/// cursor up to eight columns past a multiple of eight, and the column must
/// stay within sixteen bits.
pub const MAX_COLS: u16 = 65527;

/// Whether a parser can keep a grid of this size.
pub open spec fn parser_fits(rows: u16, cols: u16) -> bool {
    rows >= MIN_ROWS && MIN_COLS <= cols && cols <= MAX_COLS
}

/// The view of a cell that may be absent.
pub open spec fn cell_view(cell: Option<Cell>) -> Option<CellView> {
    match cell {
        Some(c) => Some(c@),
        None => None,
    }
}

/// `vt100::Parser`, to be held and handed on. Nothing of its inside is
/// visible; what is known of a parser is what the functions below say.
#[verifier::external_type_specification]
#[verifier::external_body]
pub struct ExParser(vt100::Parser);

/// The rows and columns that a parser was made with.
pub uninterp spec fn parser_size(parser: vt100::Parser) -> (u16, u16);

/// The bytes that a parser has been given since it was made, in order.
pub uninterp spec fn parser_input(parser: vt100::Parser) -> Seq<u8>;

/// The cell at (`row`, `col`) of a `vt100` screen of `rows` by `cols` cells
/// without scrollback that has been given the bytes `input`.
pub uninterp spec fn screen_cell(rows: u16, cols: u16, input: Seq<u8>, row: u16, col: u16) -> Option<
    CellView,
>;

/// The cursor, as (row, column), of a `vt100` screen of `rows` by `cols`
/// cells without scrollback that has been given the bytes `input`.
pub uninterp spec fn screen_cursor(rows: u16, cols: u16, input: Seq<u8>) -> (u16, u16);

/// `vt100::Parser::new` with a scrollback of zero lines: a parser of the
/// given size that has been given nothing yet. Its cursor is at the origin,
/// and it has a blank cell at every place of its grid and none outside. A
/// grid that a parser cannot keep is left out: with no row the call fails,
/// and with one row, with fewer than three columns or with more than 65527
/// a later call of `process` fails, when text wraps, on a character three
/// columns wide, or on a tab at the right edge.
#[verifier::external_body]
fn parser_new(rows: u16, cols: u16) -> (parser: vt100::Parser)
    requires
        parser_fits(rows, cols),
    ensures
        parser_size(parser) == (rows, cols),
        parser_input(parser) == Seq::<u8>::empty(),
        screen_cursor(rows, cols, parser_input(parser)) == origin(),
        forall|row: u16, col: u16|
            #[trigger] screen_cell(rows, cols, parser_input(parser), row, col) == untouched_cell(
                rows,
                cols,
                row,
                col,
            ),
{
    vt100::Parser::new(rows, cols, 0)
}

/// `vt100::Parser::process`: the parser takes the bytes one by one, after
/// those it has had before, and keeps its size. It reports no error: what
/// it does not understand it passes over. The sizes on which it fails are
/// those that `parser_new` leaves out, so that no parser has one.
#[verifier::external_body]
fn parser_process(parser: &mut vt100::Parser, bytes: &[u8])
    ensures
        parser_size(*final(parser)) == parser_size(*old(parser)),
        parser_input(*final(parser)) == parser_input(*old(parser)) + bytes@,
{
    parser.process(bytes)
}

/// `vt100::Screen::cell`, with the text, the two colours and the four
/// attributes of the cell it finds: what it returns depends on the parser's
/// size and on the bytes it has been given, and on nothing else.
#[verifier::external_body]
fn parser_cell(parser: &vt100::Parser, row: u16, col: u16) -> (cell: Option<Cell>)
    ensures
        cell_view(cell) == screen_cell(
            parser_size(*parser).0,
            parser_size(*parser).1,
            parser_input(*parser),
            row,
            col,
        ),
{
    let cell = parser.screen().cell(row, col)?;
    let fg = match cell.fgcolor() {
        vt100::Color::Default => CellColor::Default,
        vt100::Color::Idx(i) => CellColor::Idx(i),
        vt100::Color::Rgb(r, g, b) => CellColor::Rgb(r, g, b),
    };
    let bg = match cell.bgcolor() {
        vt100::Color::Default => CellColor::Default,
        vt100::Color::Idx(i) => CellColor::Idx(i),
        vt100::Color::Rgb(r, g, b) => CellColor::Rgb(r, g, b),
    };
    let attributes = CellAttributes { bold: cell.bold(), italic: cell.italic(), underline: cell.underline(), inverse: cell.inverse() };
    Some(Cell { text: cell.contents(), fg, bg, attributes })
}

/// `vt100::Screen::cursor_position`: the cursor as (row, column), which
/// depends on the parser's size and on the bytes it has been given, and on
/// nothing else.
#[verifier::external_body]
fn parser_cursor(parser: &vt100::Parser) -> (position: (u16, u16))
    ensures
        position == screen_cursor(
            parser_size(*parser).0,
            parser_size(*parser).1,
            parser_input(*parser),
        ),
{
    parser.screen().cursor_position()
}

/// The screen model as a mathematical value: its size and the bytes it has
/// interpreted since it was made or last resized.
pub struct ScreenView {
    pub rows: u16,
    pub cols: u16,
    pub input: Seq<u8>,
}

impl ScreenView {
    /// Whether the grid has cells: it has where a parser can keep it, with
    /// two rows at least and from three to 65527 columns. Any other grid
    /// stays without cells, whatever it is given.
    pub open spec fn has_cells(self) -> bool {
        parser_fits(self.rows, self.cols)
    }

    /// Whether the screen is blank: the cursor is at the origin, every
    /// place of the grid holds a blank cell, and there is no cell outside
    /// the grid.
    pub open spec fn is_blank(self) -> bool {
        &&& self.cursor() == origin()
        &&& forall|row: u16, col: u16|
            #[trigger] self.cell(row, col) == if self.has_cells() {
                untouched_cell(self.rows, self.cols, row, col)
            } else {
                None
            }
    }

    /// The cell at (`row`, `col`), absent where the grid has none.
    pub open spec fn cell(self, row: u16, col: u16) -> Option<CellView> {
        if self.has_cells() {
            screen_cell(self.rows, self.cols, self.input, row, col)
        } else {
            None
        }
    }

    /// The cursor as (row, column); the origin for a grid without cells.
    pub open spec fn cursor(self) -> (u16, u16) {
        if self.has_cells() {
            screen_cursor(self.rows, self.cols, self.input)
        } else {
            origin()
        }
    }

    /// A blank screen of the given size.
    pub open spec fn blank(rows: u16, cols: u16) -> ScreenView {
        ScreenView { rows, cols, input: Seq::empty() }
    }

    /// This screen after it has interpreted `bytes`.
    pub open spec fn fed(self, bytes: Seq<u8>) -> ScreenView {
        ScreenView { rows: self.rows, cols: self.cols, input: self.input + bytes }
    }

    /// This screen after a resize: a blank screen of the new size. Nothing
    /// of the old content is kept.
    pub open spec fn resized(self, rows: u16, cols: u16) -> ScreenView {
        ScreenView::blank(rows, cols)
    }

    /// This screen after it has interpreted each of `chunks` in turn.
    pub open spec fn fed_all(self, chunks: Seq<Seq<u8>>) -> ScreenView
        decreases chunks.len(),
    {
        if chunks.len() == 0 {
            self
        } else {
            self.fed_all(chunks.drop_last()).fed(chunks.last())
        }
    }
}

/// The bytes of `chunks`, one chunk after the other.
pub open spec fn concat_chunks(chunks: Seq<Seq<u8>>) -> Seq<u8>
    decreases chunks.len(),
{
    if chunks.len() == 0 {
        Seq::empty()
    } else {
        concat_chunks(chunks.drop_last()) + chunks.last()
    }
}

/// The screen model. Its cells and cursor are those of a `vt100` parser
/// of the same size that has been given the same bytes.
pub struct ScreenModel {
    rows: u16,
    cols: u16,
    parser: Option<vt100::Parser>,
    unparsed: Ghost<Seq<u8>>,
}

impl View for ScreenModel {
    type V = ScreenView;

    closed spec fn view(&self) -> ScreenView {
        ScreenView {
            rows: self.rows,
            cols: self.cols,
            input: match self.parser {
                Some(p) => parser_input(p),
                None => self.unparsed@,
            },
        }
    }
}

impl ScreenModel {
    #[verifier::type_invariant]
    spec fn well_formed(&self) -> bool {
        match self.parser {
            Some(p) => parser_fits(self.rows, self.cols) && parser_size(p) == (self.rows, self.cols),
            None => !parser_fits(self.rows, self.cols),
        }
    }

    /// A blank screen of `rows` by `cols` cells with the cursor at the
    /// origin.
    pub fn new(rows: u16, cols: u16) -> (screen: ScreenModel)
        ensures
            screen@ == ScreenView::blank(rows, cols),
            screen@.is_blank(),
    {
        if rows >= MIN_ROWS && MIN_COLS <= cols && cols <= MAX_COLS {
            let parser = parser_new(rows, cols);
            let screen = ScreenModel { rows, cols, parser: Some(parser), unparsed: Ghost(Seq::empty()) };
            assert(screen@.is_blank()) by {
                assert forall|row: u16, col: u16|
                    #[trigger] screen@.cell(row, col) == untouched_cell(rows, cols, row, col) by {
                    assert(screen@.cell(row, col) == screen_cell(
                        rows,
                        cols,
                        parser_input(parser),
                        row,
                        col,
                    ));
                }
            }
            screen
        } else {
            ScreenModel { rows, cols, parser: None, unparsed: Ghost(Seq::empty()) }
        }
    }

    /// Interprets `bytes` as terminal output: text, cursor movement,
    /// erasing, colours and attributes, wrapping and scrolling. A sequence
    /// that is not understood is passed over.
    pub fn process(&mut self, bytes: &[u8])
        ensures
            final(self)@ == old(self)@.fed(bytes@),
    {
        proof {
            use_type_invariant(&*self);
        }
        let mut taken = ScreenModel::new(0, 0);
        core::mem::swap(self, &mut taken);
        let ScreenModel { rows, cols, parser, unparsed } = taken;
        match parser {
            Some(mut p) => {
                parser_process(&mut p, bytes);
                *self = ScreenModel { rows, cols, parser: Some(p), unparsed };
            },
            None => {
                *self = ScreenModel { rows, cols, parser: None, unparsed: Ghost(unparsed@ + bytes@) };
            },
        }
    }

    /// Makes the screen blank at the new size: nothing of what it showed
    /// is kept.
    pub fn resize(&mut self, rows: u16, cols: u16)
        ensures
            final(self)@ == old(self)@.resized(rows, cols),
            final(self)@.is_blank(),
    {
        *self = ScreenModel::new(rows, cols);
    }

    /// The size as (rows, columns).
    pub fn size(&self) -> (size: (u16, u16))
        ensures
            size == (self@.rows, self@.cols),
    {
        (self.rows, self.cols)
    }

    /// The cell at (`row`, `col`), if the grid has one there.
    pub fn cell(&self, row: u16, col: u16) -> (cell: Option<Cell>)
        ensures
            cell_view(cell) == self@.cell(row, col),
    {
        proof {
            use_type_invariant(self);
        }
        match &self.parser {
            Some(p) => parser_cell(p, row, col),
            None => None,
        }
    }

    /// The cursor as (row, column).
    pub fn cursor_position(&self) -> (position: (u16, u16))
        ensures
            position == self@.cursor(),
    {
        proof {
            use_type_invariant(self);
        }
        match &self.parser {
            Some(p) => parser_cursor(p),
            None => (0, 0),
        }
    }
}

/// Resizing twice to the same size gives the screen that resizing once
/// gives: the same size, the same cells, the same cursor.
pub proof fn lemma_resize_idempotent(screen: ScreenView, rows: u16, cols: u16)
    ensures
        screen.resized(rows, cols).resized(rows, cols) == screen.resized(rows, cols),
        forall|row: u16, col: u16|
            screen.resized(rows, cols).resized(rows, cols).cell(row, col) == screen.resized(
                rows,
                cols,
            ).cell(row, col),
        screen.resized(rows, cols).resized(rows, cols).cursor() == screen.resized(
            rows,
            cols,
        ).cursor(),
{
}

/// Interpreting `first` and then `second` gives the screen that
/// interpreting the two as one piece gives.
pub proof fn lemma_process_split(screen: ScreenView, first: Seq<u8>, second: Seq<u8>)
    ensures
        screen.fed(first).fed(second) == screen.fed(first + second),
{
    assert((screen.input + first) + second =~= screen.input + (first + second));
}

/// However a byte sequence is cut into chunks, interpreting the chunks in
/// turn gives the screen that interpreting the whole sequence at once
/// gives: the same cells and the same cursor.
pub proof fn lemma_process_chunk_invariant(screen: ScreenView, chunks: Seq<Seq<u8>>)
    ensures
        screen.fed_all(chunks) == screen.fed(concat_chunks(chunks)),
        forall|row: u16, col: u16|
            screen.fed_all(chunks).cell(row, col) == screen.fed(concat_chunks(chunks)).cell(
                row,
                col,
            ),
        screen.fed_all(chunks).cursor() == screen.fed(concat_chunks(chunks)).cursor(),
    decreases chunks.len(),
{
    if chunks.len() == 0 {
        assert(screen.input + Seq::<u8>::empty() =~= screen.input);
    } else {
        lemma_process_chunk_invariant(screen, chunks.drop_last());
        lemma_process_split(screen, concat_chunks(chunks.drop_last()), chunks.last());
    }
}

} // verus!
