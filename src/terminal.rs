//! A terminal session's screen: the escape-sequence engine, the grid it
//! drives, and the render-ready snapshot of what is visible.

use vstd::prelude::*;
use alacritty_terminal::event::VoidListener;
use alacritty_terminal::Term;
use crate::cell::{blank, extract, extracted, window, Glyph, RawCell, RenderableCell};
use crate::engine;
use crate::engine::Parser;
use crate::engine::{cursor_at, grid_rows, history_len, history_limit, screen_columns, screen_lines,
    sound, view_offset};
use crate::input::{encode_utf8, utf8_of};

verus! {

/// Rows of output that the scrollback keeps.
pub const SCROLLBACK: usize = 10000;

/// The largest number of rows or columns that a screen may have.
pub const MAX_DIMENSION: u16 = 1000;

/// Whether a screen of `rows` by `cols` can be held: at least one row and
/// two columns. The engine cannot hold a double-width character on a screen
/// of one column, so that width is refused.
pub open spec fn size_fits(rows: u16, cols: u16) -> bool {
    1 <= rows && 2 <= cols
}

/// Whether a screen may be resized to `rows` by `cols`: a size that
/// `size_fits`, with neither more than `MAX_DIMENSION`.
pub open spec fn size_ok(rows: u16, cols: u16) -> bool {
    size_fits(rows, cols) && rows <= MAX_DIMENSION && cols <= MAX_DIMENSION
}

/// The display offset after scrolling by `delta` from `offset` over a
/// scrollback of `history` rows: toward the history for `delta > 0`, toward
/// the live bottom for `delta < 0`, never below 0 or above `history`.
pub open spec fn scrolled(offset: nat, history: nat, delta: int) -> nat {
    if offset + delta <= 0 {
        0
    } else if offset + delta >= history {
        history
    } else {
        (offset + delta) as nat
    }
}

/// What a session's screen shows and holds.
pub struct ScreenView {
    pub id: u64,
    pub rows: nat,
    pub cols: nat,
    /// How far the view stands into the scrollback; 0 is the live bottom.
    pub display_offset: nat,
    /// Number of rows in the scrollback.
    pub history: nat,
    /// The cursor, as (row, column).
    pub cursor: (nat, nat),
    /// Every row of the grid, oldest first: the `history` rows of the
    /// scrollback, then the `rows` rows of the screen.
    pub content: Seq<Seq<Glyph>>,
}

impl ScreenView {
    /// The visible window, row by row, as the grid stores it.
    pub open spec fn visible(self) -> Seq<RawCell> {
        window(self.content, self.history, self.display_offset, self.rows, self.cols)
    }

    /// The snapshot of this screen: every visible cell, colours resolved.
    pub open spec fn snapshot(self) -> Seq<RenderableCell> {
        extracted(self.visible(), self.display_offset as usize)
    }
}

/// The screen of one terminal session.
pub struct Terminal {
    id: u64,
    rows: u16,
    cols: u16,
    term: Term<VoidListener>,
    parser: Parser,
}

impl View for Terminal {
    type V = ScreenView;

    closed spec fn view(&self) -> ScreenView {
        ScreenView {
            id: self.id,
            rows: self.rows as nat,
            cols: self.cols as nat,
            display_offset: view_offset(self.term),
            history: history_len(self.term),
            cursor: cursor_at(self.term),
            content: grid_rows(self.term),
        }
    }
}

impl Terminal {
    /// The screen's invariant: its size is one that `size_fits` admits, the
    /// grid holds the scrollback rows and the screen rows, each `cols` wide,
    /// the cursor lies on the screen, and the view lies within the
    /// scrollback, which holds at most `SCROLLBACK` rows.
    pub closed spec fn inv(&self) -> bool {
        &&& size_fits(self.rows, self.cols)
        &&& screen_lines(self.term) == self.rows as nat
        &&& screen_columns(self.term) == self.cols as nat
        &&& history_limit(self.term) == SCROLLBACK as nat
        &&& sound(self.term)
    }

    /// What `inv` gives a caller.
    pub proof fn lemma_inv(&self)
        requires
            self.inv(),
        ensures
            size_fits(self@.rows as u16, self@.cols as u16),
            self@.content.len() == self@.history + self@.rows,
            forall|i: int| 0 <= i < self@.content.len() ==> (#[trigger] self@.content[i]).len() == self@.cols,
            self@.cursor.0 < self@.rows,
            self@.cursor.1 < self@.cols,
            self@.display_offset <= self@.history,
            self@.history <= SCROLLBACK,
    {
    }

    /// A blank screen of `rows` by `cols` for the session `id`, or `None`
    /// where `size_fits` refuses that size.
    pub fn new(id: u64, rows: u16, cols: u16) -> (r: Option<Terminal>)
        ensures
            r is Some <==> size_fits(rows, cols),
            r matches Some(t) ==> {
                &&& t.inv()
                &&& t@.id == id
                &&& t@.rows == rows
                &&& t@.cols == cols
                &&& t@.display_offset == 0
                &&& t@.history == 0
                &&& t@.cursor == (0nat, 0nat)
                &&& t@.content.len() == rows
                &&& forall|i: int, j: int|
                    0 <= i < rows && 0 <= j < cols ==> #[trigger] t@.content[i][j] == blank()
            },
    {
        if rows < 1 || cols < 2 {
            return None;
        }
        let term = engine::new_term(rows as usize, cols as usize, SCROLLBACK);
        Some(Terminal { id, rows, cols, term, parser: engine::new_parser() })
    }

    /// The session's id, fixed for its lifetime.
    pub fn id(&self) -> (r: u64)
        ensures
            r == self@.id,
    {
        self.id
    }

    pub fn rows(&self) -> (r: u16)
        ensures
            r == self@.rows,
    {
        self.rows
    }

    pub fn cols(&self) -> (r: u16)
        ensures
            r == self@.cols,
    {
        self.cols
    }

    pub fn display_offset(&self) -> (r: usize)
        ensures
            r == self@.display_offset,
    {
        engine::display_offset(&self.term)
    }

    /// Number of rows in the scrollback.
    pub fn history_size(&self) -> (r: usize)
        ensures
            r == self@.history,
    {
        engine::history_size(&self.term)
    }

    /// The snapshot: every cell of the visible window, row by row and left
    /// to right, with its colours resolved. Blank cells are included.
    pub fn cells(&self) -> (r: Vec<RenderableCell>)
        requires
            self.inv(),
        ensures
            r@ == self@.snapshot(),
            r@.len() == self@.rows * self@.cols,
            forall|i: int| 0 <= i < r@.len() ==> {
                &&& #[trigger] r@[i].column == i % (self@.cols as int)
                &&& r@[i].line + r@[i].display_offset == i / (self@.cols as int)
                &&& r@[i].display_offset == self@.display_offset
            },
    {
        let raws = engine::window_cells(&self.term);
        let offset = engine::display_offset(&self.term);
        let r = extract(&raws, offset);
        assert forall|i: int| 0 <= i < r@.len() implies {
            &&& #[trigger] r@[i].column == i % (self@.cols as int)
            &&& r@[i].line + r@[i].display_offset == i / (self@.cols as int)
            &&& r@[i].display_offset == self@.display_offset
        } by {
            assert(raws@[i].column == i % (self@.cols as int));
        }
        r
    }

    /// Feeds `data`, in order, through the escape-sequence engine, then
    /// returns the new cells. Malformed sequences are absorbed by the
    /// engine; the cursor stays on the screen.
    pub fn update(&mut self, data: &[u8]) -> (r: Vec<RenderableCell>)
        requires
            old(self).inv(),
        ensures
            final(self).inv(),
            final(self)@.id == old(self)@.id,
            final(self)@.rows == old(self)@.rows,
            final(self)@.cols == old(self)@.cols,
            final(self)@.cursor.0 < final(self)@.rows,
            final(self)@.cursor.1 < final(self)@.cols,
            r@ == final(self)@.snapshot(),
    {
        engine::advance(&mut self.parser, &mut self.term, data);
        // A scroll region below the top row can lift the view past the
        // scrollback; a step of 0 clamps it back.
        engine::scroll_term(&mut self.term, 0);
        self.cells()
    }

    /// Gives the screen `rows` by `cols`, then returns the new snapshot. A
    /// size that `size_ok` refuses leaves the screen as it was.
    ///
    /// The engine keeps the cursor on the screen and the content as its
    /// terminal would, which is not a plain top-left copy: growing pulls rows
    /// down out of the scrollback, shrinking above the cursor pushes rows
    /// into it, and a change of width reflows wrapped lines, moving the
    /// cursor with them. Where none of that happens (the width unchanged and
    /// either fewer rows that keep the cursor, or more rows with an empty
    /// scrollback) the top rows stay where they were, new rows are blank, and
    /// the cursor and scrollback are untouched.
    pub fn resize(&mut self, rows: u16, cols: u16) -> (r: Vec<RenderableCell>)
        requires
            old(self).inv(),
        ensures
            final(self).inv(),
            final(self)@.id == old(self)@.id,
            size_ok(rows, cols) ==> final(self)@.rows == rows && final(self)@.cols == cols,
            !size_ok(rows, cols) ==> *final(self) == *old(self),
            size_ok(rows, cols) && cols == old(self)@.cols && rows <= old(self)@.rows
                && old(self)@.cursor.0 < rows ==> {
                &&& final(self)@.content == old(self)@.content.subrange(
                    0,
                    old(self)@.history + rows,
                )
                &&& final(self)@.history == old(self)@.history
                &&& final(self)@.cursor == old(self)@.cursor
            },
            size_ok(rows, cols) && cols == old(self)@.cols && rows >= old(self)@.rows
                && old(self)@.history == 0 ==> {
                &&& final(self)@.content.subrange(0, old(self)@.rows as int) == old(self)@.content
                &&& forall|i: int, j: int|
                    old(self)@.rows <= i < rows && 0 <= j < cols
                        ==> #[trigger] final(self)@.content[i][j] == blank()
                &&& final(self)@.history == 0
                &&& final(self)@.cursor == old(self)@.cursor
            },
            r@ == final(self)@.snapshot(),
    {
        if valid_size(rows, cols) {
            engine::resize_term(&mut self.term, rows as usize, cols as usize);
            self.rows = rows;
            self.cols = cols;
        }
        self.cells()
    }

    /// Moves the view by `delta` rows: toward the history for `delta > 0`,
    /// toward the live bottom for `delta < 0`, clamped to the scrollback.
    /// Only the view moves.
    pub fn scroll(&mut self, delta: i32) -> (r: Vec<RenderableCell>)
        requires
            old(self).inv(),
        ensures
            final(self).inv(),
            final(self)@.display_offset == scrolled(
                old(self)@.display_offset,
                old(self)@.history,
                delta as int,
            ),
            final(self)@.id == old(self)@.id,
            final(self)@.rows == old(self)@.rows,
            final(self)@.cols == old(self)@.cols,
            final(self)@.history == old(self)@.history,
            final(self)@.cursor == old(self)@.cursor,
            final(self)@.content == old(self)@.content,
            r@ == final(self)@.snapshot(),
    {
        self.scroll_view(delta);
        self.cells()
    }

    fn scroll_view(&mut self, delta: i32)
        requires
            old(self).inv(),
        ensures
            final(self).inv(),
            final(self)@.display_offset == scrolled(
                old(self)@.display_offset,
                old(self)@.history,
                delta as int,
            ),
            final(self)@.id == old(self)@.id,
            final(self)@.rows == old(self)@.rows,
            final(self)@.cols == old(self)@.cols,
            final(self)@.history == old(self)@.history,
            final(self)@.cursor == old(self)@.cursor,
            final(self)@.content == old(self)@.content,
    {
        // Past the whole scrollback any larger step lands on the same row,
        // so the step is bounded before it reaches the engine's `i32` sum.
        let bound: i32 = SCROLLBACK as i32 + 1;
        let step: i32 = if delta > bound {
            bound
        } else if delta < -bound {
            -bound
        } else {
            delta
        };
        engine::scroll_term(&mut self.term, step);
    }

    /// Prepares the key `c` for the pseudo-terminal: the view returns to the
    /// live bottom, and the bytes to send are `c` in UTF-8.
    pub fn key_input(&mut self, c: char) -> (r: Vec<u8>)
        requires
            old(self).inv(),
        ensures
            final(self).inv(),
            final(self)@.display_offset == 0,
            final(self)@.id == old(self)@.id,
            final(self)@.rows == old(self)@.rows,
            final(self)@.cols == old(self)@.cols,
            final(self)@.history == old(self)@.history,
            final(self)@.cursor == old(self)@.cursor,
            final(self)@.content == old(self)@.content,
            r@ == utf8_of(c),
    {
        let offset = engine::display_offset(&self.term);
        self.scroll_view(-(offset as i32));
        encode_utf8(c)
    }

    /// The cursor, as (row, column).
    pub fn cursor(&self) -> (r: (usize, usize))
        requires
            self.inv(),
        ensures
            r.0 == self@.cursor.0,
            r.1 == self@.cursor.1,
            r.0 < self@.rows,
            r.1 < self@.cols,
    {
        engine::cursor(&self.term)
    }
}

/// Scrolling never leaves the scrollback: a step up by at least the rows
/// that remain above the view lands exactly on the oldest row (offset equal
/// to the scrollback's length), and a step down by at least the offset lands
/// exactly on the live bottom (offset 0).
pub proof fn lemma_scroll_bounds(offset: nat, history: nat, delta: int)
    requires
        offset <= history,
    ensures
        scrolled(offset, history, delta) <= history,
        delta >= history - offset ==> scrolled(offset, history, delta) == history,
        delta <= -(offset as int) ==> scrolled(offset, history, delta) == 0,
{
}

/// Scrolling only moves the view: after any steps that leave the content
/// as it was and bring the view back to the live bottom, the snapshot is the
/// one that the live bottom showed before.
pub proof fn lemma_scroll_back_restores(before: Terminal, after: Terminal)
    requires
        before@.display_offset == 0,
        after@.display_offset == 0,
        after@.content == before@.content,
        after@.history == before@.history,
        after@.rows == before@.rows,
        after@.cols == before@.cols,
    ensures
        after@.snapshot() == before@.snapshot(),
{
}

/// Whether `size_ok` admits a screen of `rows` by `cols`.
pub fn valid_size(rows: u16, cols: u16) -> (r: bool)
    ensures
        r == size_ok(rows, cols),
{
    1 <= rows && rows <= MAX_DIMENSION && 2 <= cols && cols <= MAX_DIMENSION
}

} // verus!
