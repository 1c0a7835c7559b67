//! Cells as the grid holds them, and as a snapshot hands them out.

use vstd::prelude::*;
use alacritty_terminal::vte::ansi::{Color, NamedColor};

verus! {

/// One visible grid cell as the grid stores it.
///
/// `line` counts from the top of the live screen, so it is negative for rows
/// that are shown out of the scrollback.
#[derive(Clone, Copy, Debug, PartialEq, Eq)]
pub struct RawCell {
    pub column: usize,
    pub line: i32,
    pub c: char,
    pub fg: Color,
    pub bg: Color,
    pub inverse: bool,
}

/// What one grid cell holds: its character, colours and inverse flag.
#[derive(Clone, Copy, Debug, PartialEq, Eq)]
pub struct Glyph {
    pub c: char,
    pub fg: Color,
    pub bg: Color,
    pub inverse: bool,
}

/// A cell that holds nothing: a space in the default colours, not inverse.
pub open spec fn blank() -> Glyph {
    Glyph {
        c: ' ',
        fg: Color::Named(NamedColor::Foreground),
        bg: Color::Named(NamedColor::Background),
        inverse: false,
    }
}

/// The visible window over `rows`, the grid's rows oldest first (`history`
/// rows of scrollback, then the screen), each `cols` wide: the `lines` rows
/// that stand `offset` rows above the live screen, row by row.
pub open spec fn window(rows: Seq<Seq<Glyph>>, history: nat, offset: nat, lines: nat, cols: nat) -> Seq<RawCell> {
    Seq::new(
        lines * cols,
        |i: int|
            {
                let row = i / (cols as int);
                let col = i % (cols as int);
                let g = rows[history - offset + row][col];
                RawCell {
                    column: col as usize,
                    line: (row - offset) as i32,
                    c: g.c,
                    fg: g.fg,
                    bg: g.bg,
                    inverse: g.inverse,
                }
            },
    )
}

/// A positioned cell with its final colours, ready to be drawn.
///
/// The row in the visible window is `line + display_offset`.
#[derive(Clone, Copy, Debug, PartialEq, Eq)]
pub struct RenderableCell {
    pub column: usize,
    pub line: i32,
    pub content: char,
    pub display_offset: usize,
    pub fg: Color,
    pub bg: Color,
}

/// The renderable form of `raw`: inverse video swaps foreground and background.
pub open spec fn resolved(raw: RawCell, display_offset: usize) -> RenderableCell {
    RenderableCell {
        column: raw.column,
        line: raw.line,
        content: raw.c,
        display_offset,
        fg: if raw.inverse { raw.bg } else { raw.fg },
        bg: if raw.inverse { raw.fg } else { raw.bg },
    }
}

/// Every cell of `raws` resolved, in the same order: none is left out.
pub open spec fn extracted(raws: Seq<RawCell>, display_offset: usize) -> Seq<RenderableCell> {
    raws.map_values(|raw: RawCell| resolved(raw, display_offset))
}

/// Resolves the colours of one cell.
pub fn resolve(raw: RawCell, display_offset: usize) -> (r: RenderableCell)
    ensures
        r == resolved(raw, display_offset),
        raw.inverse ==> r.fg == raw.bg && r.bg == raw.fg,
        !raw.inverse ==> r.fg == raw.fg && r.bg == raw.bg,
{
    let (fg, bg) = if raw.inverse {
        (raw.bg, raw.fg)
    } else {
        (raw.fg, raw.bg)
    };
    RenderableCell { column: raw.column, line: raw.line, content: raw.c, display_offset, fg, bg }
}

/// Resolves every cell of `raws`, keeping their order.
pub fn extract(raws: &Vec<RawCell>, display_offset: usize) -> (r: Vec<RenderableCell>)
    ensures
        r@ == extracted(raws@, display_offset),
{
    let mut out: Vec<RenderableCell> = Vec::with_capacity(raws.len());
    let mut i: usize = 0;
    while i < raws.len()
        invariant
            i <= raws@.len(),
            out@ == extracted(raws@.subrange(0, i as int), display_offset),
        decreases raws@.len() - i,
    {
        out.push(resolve(raws[i], display_offset));
        proof {
            assert(raws@.subrange(0, i as int + 1) == raws@.subrange(0, i as int).push(raws@[i as int]));
        }
        i += 1;
    }
    proof {
        assert(raws@.subrange(0, raws@.len() as int) == raws@);
    }
    out
}

} // verus!
