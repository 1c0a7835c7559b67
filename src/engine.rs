//! The terminal engine of alacritty_terminal, as the library relies on it.
//!
//! `Term` is the grid with its cursor, scrollback and display offset, and
//! `Processor` is the escape-sequence state machine that drives it. Both stay
//! opaque: the names below say what the library reads of a `Term`, and each
//! wrapper says what its call does to them, as the crate's source shows it.

use vstd::prelude::*;
use alacritty_terminal::event::VoidListener;
use alacritty_terminal::grid::Scroll;
use alacritty_terminal::term::cell::Flags;
use alacritty_terminal::term::test::TermSize;
use alacritty_terminal::term::Config;
use alacritty_terminal::vte::ansi::{Color, NamedColor, Processor, Rgb};
use alacritty_terminal::Term;
use crate::cell::{blank, window, Glyph, RawCell};

verus! {

#[verifier::external_type_specification]
#[verifier::external_body]
#[verifier::reject_recursive_types(T)]
pub struct ExTerm<T>(Term<T>);

#[verifier::external_type_specification]
#[verifier::external_body]
pub struct ExVoidListener(VoidListener);

// Colours are plain data: their variants and fields stay visible to Verus.
#[verifier::external_type_specification]
pub struct ExColor(Color);

#[verifier::external_type_specification]
pub struct ExNamedColor(NamedColor);

#[verifier::external_type_specification]
pub struct ExRgb(Rgb);

/// The escape-sequence state machine of vte. Verus cannot declare
/// `Processor` itself, whose parameter is bound by vte's `Timeout`, so it is
/// held here out of Verus's sight.
#[verifier::external_body]
pub struct Parser {
    inner: Processor,
}

/// Relies on `Processor::new`: a state machine in its ground state.
#[verifier::external_body]
pub(crate) fn new_parser() -> (r: Parser) {
    Parser { inner: Processor::new() }
}

/// Number of rows on the screen.
pub uninterp spec fn screen_lines(t: Term<VoidListener>) -> nat;

/// Number of columns on the screen.
pub uninterp spec fn screen_columns(t: Term<VoidListener>) -> nat;

/// Number of rows held in the scrollback.
pub uninterp spec fn history_len(t: Term<VoidListener>) -> nat;

/// The scrollback bound that the terminal was made with
/// (`Config::scrolling_history`); neither the primary nor the alternate
/// screen keeps more rows of history than this.
pub uninterp spec fn history_limit(t: Term<VoidListener>) -> nat;

/// How many rows the view stands above the live bottom.
pub uninterp spec fn view_offset(t: Term<VoidListener>) -> nat;

/// The cursor, as (row, column) of the live screen.
pub uninterp spec fn cursor_at(t: Term<VoidListener>) -> (nat, nat);

/// Every row of the grid, oldest first: the scrollback, then the screen.
pub uninterp spec fn grid_rows(t: Term<VoidListener>) -> Seq<Seq<Glyph>>;

/// The cells of the visible window, row by row.
pub open spec fn visible_cells(t: Term<VoidListener>) -> Seq<RawCell> {
    window(grid_rows(t), history_len(t), view_offset(t), screen_lines(t), screen_columns(t))
}

/// The grid's shape: the scrollback rows and then the screen rows, each as
/// wide as the screen (`Storage::len`; `Row::new`, `Row::grow`,
/// `Row::shrink` keep a row `columns` wide).
pub open spec fn shaped(t: Term<VoidListener>) -> bool {
    &&& grid_rows(t).len() == history_len(t) + screen_lines(t)
    &&& forall|i: int|
        0 <= i < grid_rows(t).len() ==> (#[trigger] grid_rows(t)[i]).len() == screen_columns(t)
}

/// What the library keeps true of a terminal between calls: the grid has its
/// shape, the cursor lies on the screen and the view does not reach past the
/// scrollback, which stays within its bound.
pub open spec fn sound(t: Term<VoidListener>) -> bool {
    &&& shaped(t)
    &&& cursor_at(t).0 < screen_lines(t)
    &&& cursor_at(t).1 < screen_columns(t)
    &&& view_offset(t) <= history_len(t)
    &&& history_len(t) <= history_limit(t)
}

/// Relies on `Term::new` with `Config::scrolling_history` set to `history`:
/// a grid of the given size with an empty scrollback, the cursor at the
/// origin and the view at the live bottom (`Grid::new`). Every row is
/// `Row::new`, filled with `Cell::default()`.
#[verifier::external_body]
pub(crate) fn new_term(lines: usize, columns: usize, history: usize) -> (r: Term<VoidListener>)
    requires
        lines >= 1,
        columns >= 1,
    ensures
        screen_lines(r) == lines,
        screen_columns(r) == columns,
        history_limit(r) == history,
        history_len(r) == 0,
        view_offset(r) == 0,
        cursor_at(r) == (0nat, 0nat),
        shaped(r),
        forall|i: int, j: int|
            0 <= i < lines && 0 <= j < columns ==> #[trigger] grid_rows(r)[i][j] == blank(),
{
    let config = Config { scrolling_history: history, ..Config::default() };
    Term::new(config, &TermSize::new(columns, lines), VoidListener)
}

/// Relies on `Processor::advance`: feeds the bytes, in order, to the
/// escape-sequence state machine, which applies what it completes to the
/// terminal. No handler of `Term` changes the screen size or the scrollback
/// bound, and each keeps the cursor on the screen. The display offset stays
/// within the bound (`Grid::scroll_up`), though not always within the
/// scrollback: a scroll region below the top row raises it without adding
/// rows. A screen of one column is refused: a double-width character writes
/// its spacer past the row's end (`Term::input`).
#[verifier::external_body]
pub(crate) fn advance(parser: &mut Parser, t: &mut Term<VoidListener>, bytes: &[u8])
    requires
        screen_columns(*old(t)) >= 2,
    ensures
        screen_lines(*final(t)) == screen_lines(*old(t)),
        screen_columns(*final(t)) == screen_columns(*old(t)),
        history_limit(*final(t)) == history_limit(*old(t)),
        cursor_at(*final(t)).0 < screen_lines(*final(t)),
        cursor_at(*final(t)).1 < screen_columns(*final(t)),
        history_len(*final(t)) <= history_limit(*final(t)),
        view_offset(*final(t)) <= history_limit(*final(t)),
        shaped(*final(t)),
{
    parser.inner.advance(t, bytes)
}

/// Relies on `Term::resize`: the screen takes the new size, the scrollback
/// bound stays, the cursor is clamped onto the screen and the display offset
/// into the scrollback (`Grid::resize`). With the width unchanged and fewer
/// rows, where the cursor's row stays on the screen, `Grid::shrink_lines`
/// scrolls nothing: it drops the bottom rows and keeps the rest, the
/// scrollback and the cursor as they were. With the width unchanged, more
/// rows and an empty scrollback, `Grid::grow_lines` has nothing to pull down:
/// the rows stay on top, and the new rows below are reset to
/// `Cell::default()` (`Grid::resize` resets with a default template), the
/// cursor staying where it was.
#[verifier::external_body]
pub(crate) fn resize_term(t: &mut Term<VoidListener>, lines: usize, columns: usize)
    requires
        lines >= 1,
        columns >= 1,
        sound(*old(t)),
    ensures
        screen_lines(*final(t)) == lines,
        screen_columns(*final(t)) == columns,
        history_limit(*final(t)) == history_limit(*old(t)),
        sound(*final(t)),
        columns == screen_columns(*old(t)) && lines <= screen_lines(*old(t))
            && cursor_at(*old(t)).0 < lines ==> {
            &&& grid_rows(*final(t)) == grid_rows(*old(t)).subrange(
                0,
                history_len(*old(t)) + lines,
            )
            &&& history_len(*final(t)) == history_len(*old(t))
            &&& cursor_at(*final(t)) == cursor_at(*old(t))
        },
        columns == screen_columns(*old(t)) && lines >= screen_lines(*old(t))
            && history_len(*old(t)) == 0 ==> {
            &&& grid_rows(*final(t)).subrange(0, screen_lines(*old(t)) as int) == grid_rows(*old(t))
            &&& forall|i: int, j: int|
                screen_lines(*old(t)) <= i < lines && 0 <= j < columns
                    ==> #[trigger] grid_rows(*final(t))[i][j] == blank()
            &&& history_len(*final(t)) == 0
            &&& cursor_at(*final(t)) == cursor_at(*old(t))
        },
{
    t.resize(TermSize::new(columns, lines))
}

/// Relies on `Term::scroll_display` with `Scroll::Delta`, which sets the
/// display offset to `offset + count` clamped to `[0, history]`
/// (`Grid::scroll_display`), which writes no other field of the grid.
#[verifier::external_body]
pub(crate) fn scroll_term(t: &mut Term<VoidListener>, count: i32)
    requires
        view_offset(*old(t)) <= i32::MAX,
        view_offset(*old(t)) + count <= i32::MAX,
        view_offset(*old(t)) + count >= i32::MIN,
    ensures
        view_offset(*final(t)) == (if view_offset(*old(t)) + count <= 0 {
            0
        } else if view_offset(*old(t)) + count >= history_len(*old(t)) {
            history_len(*old(t)) as int
        } else {
            view_offset(*old(t)) + count
        }),
        history_len(*final(t)) == history_len(*old(t)),
        history_limit(*final(t)) == history_limit(*old(t)),
        screen_lines(*final(t)) == screen_lines(*old(t)),
        screen_columns(*final(t)) == screen_columns(*old(t)),
        cursor_at(*final(t)) == cursor_at(*old(t)),
        grid_rows(*final(t)) == grid_rows(*old(t)),
{
    t.scroll_display(Scroll::Delta(count))
}

/// Relies on `Grid::display_offset`.
#[verifier::external_body]
pub(crate) fn display_offset(t: &Term<VoidListener>) -> (r: usize)
    ensures
        r == view_offset(*t),
{
    t.grid().display_offset()
}

/// Relies on `Dimensions::history_size` of the grid.
#[verifier::external_body]
pub(crate) fn history_size(t: &Term<VoidListener>) -> (r: usize)
    ensures
        r == history_len(*t),
{
    alacritty_terminal::grid::Dimensions::history_size(t.grid())
}

/// Relies on the grid's `cursor.point`, as (line, column).
#[verifier::external_body]
pub(crate) fn cursor(t: &Term<VoidListener>) -> (r: (usize, usize))
    ensures
        r.0 == cursor_at(*t).0,
        r.1 == cursor_at(*t).1,
{
    let point = t.grid().cursor.point;
    (point.line.0 as usize, point.column.0)
}

/// Relies on `Term::renderable_content`: its `display_iter` walks the visible
/// window from its top-left cell, row by row, every column of every row
/// (`Grid::display_iter`). The top row stands `offset` rows above the screen.
/// An offset past the scrollback would index past the grid's storage.
#[verifier::external_body]
pub(crate) fn window_cells(t: &Term<VoidListener>) -> (r: Vec<RawCell>)
    requires
        view_offset(*t) <= history_len(*t),
    ensures
        r@ == visible_cells(*t),
        r@.len() == screen_lines(*t) * screen_columns(*t),
        forall|i: int| 0 <= i < r@.len() ==> {
            &&& #[trigger] r@[i].column == i % (screen_columns(*t) as int)
            &&& r@[i].line == i / (screen_columns(*t) as int) - view_offset(*t)
        },
{
    t.renderable_content().display_iter.map(|item| RawCell {
        column: item.point.column.0,
        line: item.point.line.0,
        c: item.cell.c,
        fg: item.cell.fg,
        bg: item.cell.bg,
        inverse: item.cell.flags.contains(Flags::INVERSE),
    }).collect()
}

} // verus!
