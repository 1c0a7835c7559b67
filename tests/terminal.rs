use alacritty_terminal::vte::ansi::{Color, NamedColor};
use termcore::cell::{extract, resolve};
use termcore::input::encode_utf8;
use termcore::terminal::{valid_size, MAX_DIMENSION};
use termcore::{Message, RawCell, RenderableCell, Terminal};

fn fg() -> Color {
    Color::Named(NamedColor::Foreground)
}

fn bg() -> Color {
    Color::Named(NamedColor::Background)
}

fn session(rows: u16, cols: u16) -> Terminal {
    Terminal::new(7, rows, cols).expect("a valid size")
}

fn at(cells: &[RenderableCell], row: i64, col: usize) -> RenderableCell {
    *cells
        .iter()
        .find(|c| c.line as i64 + c.display_offset as i64 == row && c.column == col)
        .expect("a cell at that place")
}

fn row_text(cells: &[RenderableCell], row: i64) -> String {
    let mut v: Vec<&RenderableCell> =
        cells.iter().filter(|c| c.line as i64 + c.display_offset as i64 == row).collect();
    v.sort_by_key(|c| c.column);
    v.iter().map(|c| c.content).collect::<String>().trim_end().to_string()
}

#[test]
fn hello_lands_on_the_first_row() {
    let mut t = session(24, 80);
    let cells = t.update(b"Hello");
    assert_eq!(cells.len(), 24 * 80);
    for (i, ch) in "Hello".chars().enumerate() {
        let c = at(&cells, 0, i);
        assert_eq!(c.content, ch);
        assert_eq!(c.fg, fg());
        assert_eq!(c.bg, bg());
    }
    let others = cells
        .iter()
        .filter(|c| !(c.line == 0 && c.column < 5))
        .filter(|c| c.content != ' ')
        .count();
    assert_eq!(others, 0);
}

#[test]
fn carriage_return_line_feed_moves_to_next_row() {
    let mut t = session(24, 80);
    t.update(b"abc");
    assert_eq!(t.cursor(), (0, 3));
    t.update(b"\r\n");
    assert_eq!(t.cursor(), (1, 0));
    let cells = t.update(b"xy");
    assert_eq!(at(&cells, 1, 0).content, 'x');
    assert_eq!(at(&cells, 1, 1).content, 'y');
    assert_eq!(row_text(&cells, 0), "abc");
}

#[test]
fn scrolled_out_rows_fill_the_scrollback_oldest_first() {
    let rows: u16 = 3;
    let mut t = session(rows, 5);
    t.update(b"A\r\nB\r\nC\r\nD\r\nE\r\nF");
    assert_eq!(t.history_size(), rows as usize);
    let cells = t.cells();
    assert_eq!(row_text(&cells, 0), "D");
    assert_eq!(row_text(&cells, 2), "F");
    let cells = t.scroll(i32::MAX);
    assert_eq!(t.display_offset(), 3);
    assert_eq!(row_text(&cells, 0), "A");
    assert_eq!(row_text(&cells, 1), "B");
    assert_eq!(row_text(&cells, 2), "C");
}

#[test]
fn plain_text_wraps_at_the_right_margin() {
    let mut t = session(4, 5);
    let cells = t.update(b"abcdefgh");
    assert_eq!(row_text(&cells, 0), "abcde");
    assert_eq!(row_text(&cells, 1), "fgh");
    assert_eq!(t.cursor(), (1, 3));
}

#[test]
fn snapshot_twice_is_the_same() {
    let mut t = session(5, 10);
    t.update(b"one\r\n\x1b[31mtwo");
    let a = t.cells();
    let b = t.cells();
    assert_eq!(a, b);
}

#[test]
fn growing_keeps_the_overlap_in_place() {
    let mut t = session(3, 3);
    t.update(b"ab\r\ncd");
    let before = t.cells();
    let after = t.resize(5, 6);
    assert_eq!((t.rows(), t.cols()), (5, 6));
    assert_eq!(after.len(), 30);
    for row in 0..2 {
        for col in 0..2 {
            assert_eq!(at(&after, row, col), at(&before, row, col));
        }
    }
}

#[test]
fn scroll_clamps_to_the_scrollback() {
    let mut t = session(2, 4);
    t.update(b"1\r\n2\r\n3\r\n4\r\n5");
    let history = t.history_size();
    assert_eq!(history, 3);
    t.scroll(1);
    assert_eq!(t.display_offset(), 1);
    t.scroll(i32::MAX);
    assert_eq!(t.display_offset(), history);
    t.scroll(-1);
    assert_eq!(t.display_offset(), history - 1);
    t.scroll(i32::MIN);
    assert_eq!(t.display_offset(), 0);
    t.scroll(-5);
    assert_eq!(t.display_offset(), 0);
}

#[test]
fn scroll_with_no_history_stays_live() {
    let mut t = session(4, 4);
    t.scroll(10);
    assert_eq!(t.display_offset(), 0);
}

#[test]
fn inverse_video_swaps_colours() {
    let mut t = session(2, 8);
    let cells = t.update(b"\x1b[31;42;7mX\x1b[0mY");
    let x = at(&cells, 0, 0);
    assert_eq!(x.content, 'X');
    assert_eq!(x.fg, Color::Named(NamedColor::Green));
    assert_eq!(x.bg, Color::Named(NamedColor::Red));
    let y = at(&cells, 0, 1);
    assert_eq!((y.fg, y.bg), (fg(), bg()));
}

#[test]
fn resolve_swaps_only_inverse_cells() {
    let a = Color::Named(NamedColor::Blue);
    let b = Color::Indexed(200);
    let raw = RawCell { column: 3, line: -2, c: 'q', fg: a, bg: b, inverse: true };
    let r = resolve(raw, 4);
    assert_eq!(r, RenderableCell { column: 3, line: -2, content: 'q', display_offset: 4, fg: b, bg: a });
    let plain = resolve(RawCell { inverse: false, ..raw }, 0);
    assert_eq!((plain.fg, plain.bg), (a, b));
}

#[test]
fn extract_keeps_every_cell_in_order() {
    let a = Color::Named(NamedColor::Blue);
    let b = Color::Named(NamedColor::Yellow);
    let raws = vec![
        RawCell { column: 0, line: 0, c: 'a', fg: a, bg: b, inverse: false },
        RawCell { column: 1, line: 0, c: ' ', fg: a, bg: b, inverse: true },
    ];
    let r = extract(&raws, 0);
    assert_eq!(r.len(), 2);
    assert_eq!((r[0].content, r[0].fg), ('a', a));
    assert_eq!((r[1].content, r[1].fg, r[1].bg), (' ', b, a));
}

#[test]
fn garbage_bytes_keep_the_cursor_on_screen() {
    let mut t = session(6, 10);
    let mut junk: Vec<u8> = Vec::new();
    let mut x: u32 = 12345;
    for _ in 0..5000 {
        x = x.wrapping_mul(1103515245).wrapping_add(12345);
        junk.push((x >> 16) as u8);
    }
    junk.extend_from_slice(b"\x1b[99999;99999H\x1b[;;;;m\x1b]\x1b\x1bP\x9b");
    t.update(&junk);
    let (r, c) = t.cursor();
    assert!(r < 6 && c < 10);
    let cells = t.update(b"\x1b\\\x1b[0m\x1b[2J\x1b[H ok");
    assert_eq!(cells.len(), 60);
    assert_eq!(at(&cells, 0, 1).content, 'o');
}

#[test]
fn cursor_position_sequences_are_clamped() {
    let mut t = session(5, 7);
    t.update(b"\x1b[3;4H");
    assert_eq!(t.cursor(), (2, 3));
    t.update(b"\x1b[200;300H");
    assert_eq!(t.cursor(), (4, 6));
}

#[test]
fn erase_screen_blanks_every_cell() {
    let mut t = session(3, 4);
    t.update(b"abcd\r\nef");
    let cells = t.update(b"\x1b[2J");
    assert!(cells.iter().all(|c| c.content == ' '));
}

#[test]
fn zero_or_oversized_screens_are_refused() {
    assert!(Terminal::new(1, 0, 80).is_none());
    assert!(Terminal::new(1, 24, 0).is_none());
    assert!(Terminal::new(1, MAX_DIMENSION, MAX_DIMENSION).is_some());
    assert!(Terminal::new(1, MAX_DIMENSION + 1, 80).is_some());
    assert!(!valid_size(MAX_DIMENSION + 1, 80));
    assert!(!valid_size(0, 2));
    assert!(!valid_size(1, 1));
    assert!(valid_size(1, 2));
}

#[test]
fn rejected_resize_changes_nothing() {
    let mut t = session(4, 6);
    t.update(b"keep");
    let before = t.cells();
    let after = t.resize(0, 10);
    assert_eq!((t.rows(), t.cols()), (4, 6));
    assert_eq!(before, after);
    let after = t.resize(10, MAX_DIMENSION + 1);
    assert_eq!((t.rows(), t.cols()), (4, 6));
    assert_eq!(before, after);
}

#[test]
fn shrinking_clamps_the_cursor() {
    let mut t = session(10, 10);
    t.update(b"\x1b[10;10H");
    assert_eq!(t.cursor(), (9, 9));
    t.resize(4, 3);
    let (r, c) = t.cursor();
    assert!(r < 4 && c < 3);
    assert_eq!(t.cells().len(), 12);
}

#[test]
fn key_input_returns_to_the_live_bottom() {
    let mut t = session(2, 4);
    t.update(b"1\r\n2\r\n3\r\n4");
    t.scroll(2);
    assert_eq!(t.display_offset(), 2);
    assert_eq!(t.key_input('a'), vec![b'a']);
    assert_eq!(t.display_offset(), 0);
}

#[test]
fn key_input_is_utf8() {
    for c in ['a', '\r', 'é', '€', '😀', '\u{7f}', '\u{80}', '\u{7ff}', '\u{800}', '\u{ffff}', '\u{10000}', '\u{10ffff}'] {
        let mut buf = [0u8; 4];
        assert_eq!(encode_utf8(c), c.encode_utf8(&mut buf).as_bytes().to_vec());
    }
}

#[test]
fn new_session_is_blank_and_keeps_its_id() {
    let t = Terminal::new(42, 3, 4).unwrap();
    assert_eq!(t.id(), 42);
    assert_eq!(t.cursor(), (0, 0));
    assert_eq!(t.display_offset(), 0);
    assert_eq!(t.history_size(), 0);
    let cells = t.cells();
    assert_eq!(cells.len(), 12);
    for (i, c) in cells.iter().enumerate() {
        assert_eq!((c.line as usize, c.column), (i / 4, i % 4));
        assert_eq!((c.content, c.fg, c.bg), (' ', fg(), bg()));
    }
}

#[test]
fn messages_name_their_session() {
    assert_eq!(Message::DataUpdated(3, vec![1, 2]).session(), 3);
    assert_eq!(Message::CharacterReceived(9, 'x').session(), 9);
    assert_eq!(Message::Ignored(u64::MAX).session(), u64::MAX);
    assert_eq!(Message::Closed(5).session(), 5);
}

#[test]
fn one_column_screens_are_refused() {
    assert!(Terminal::new(1, 5, 1).is_none());
    let mut t = session(5, 4);
    let before = t.cells();
    assert_eq!(t.resize(5, 1), before);
    assert_eq!(t.cols(), 4);
}

#[test]
fn wide_characters_on_a_narrow_screen() {
    let mut t = session(3, 2);
    let cells = t.update("中中x".as_bytes());
    assert_eq!(cells.len(), 6);
    assert_eq!(at(&cells, 0, 0).content, '中');
    let (r, c) = t.cursor();
    assert!(r < 3 && c < 2);
}

#[test]
fn scroll_region_keeps_the_view_inside_the_scrollback() {
    let mut t = session(24, 80);
    let mut lines = Vec::new();
    for _ in 0..25 {
        lines.extend_from_slice(b"x\r\n");
    }
    t.update(&lines);
    t.scroll(1);
    let mut feed = b"\x1b[2;24r\x1b[24;1H".to_vec();
    feed.extend(std::iter::repeat(b'\n').take(6000));
    let cells = t.update(&feed);
    assert!(t.display_offset() <= t.history_size());
    assert_eq!(cells.len(), 24 * 80);
}

#[test]
fn scrolling_away_and_back_restores_the_cells() {
    let mut t = session(3, 6);
    t.update(b"one\r\ntwo\r\nthree\r\nfour\r\nfive");
    let live = t.cells();
    let history = t.history_size();
    let up = t.scroll(2);
    assert_ne!(up, live);
    assert_eq!(t.history_size(), history);
    assert_eq!(t.cursor(), (2, 4));
    let back = t.scroll(-2);
    assert_eq!(back, live);
}

#[test]
fn shrinking_rows_above_the_cursor_keeps_the_top() {
    let mut t = session(5, 4);
    let before = t.update(b"ab\r\ncd");
    let after = t.resize(3, 4);
    assert_eq!(t.cursor(), (1, 2));
    assert_eq!(t.history_size(), 0);
    assert_eq!(after.len(), 12);
    assert_eq!(&after[..], &before[..12]);
}

#[test]
fn key_input_keeps_the_content() {
    let mut t = session(2, 4);
    t.update(b"1\r\n2\r\n3");
    let live = t.cells();
    t.scroll(1);
    assert_eq!(t.key_input('z'), vec![b'z']);
    assert_eq!(t.cells(), live);
}

#[test]
fn growing_rows_with_no_scrollback_adds_blank_rows_below() {
    let mut t = session(3, 4);
    let before = t.update(b"ab\r\ncd");
    let after = t.resize(5, 4);
    assert_eq!(t.history_size(), 0);
    assert_eq!(t.cursor(), (1, 2));
    assert_eq!(&after[..12], &before[..]);
    for c in &after[12..] {
        assert_eq!((c.content, c.fg, c.bg), (' ', fg(), bg()));
    }
}

#[test]
fn growing_rows_pulls_rows_out_of_the_scrollback() {
    let mut t = session(2, 4);
    t.update(b"1\r\n2\r\n3");
    assert_eq!(t.history_size(), 1);
    let cells = t.resize(3, 4);
    assert_eq!(t.history_size(), 0);
    assert_eq!(row_text(&cells, 0), "1");
    assert_eq!(t.cursor(), (2, 1));
}

#[test]
fn poll_outcomes_become_messages() {
    assert!(matches!(Message::from_read(4, None), Message::Closed(4)));
    assert!(matches!(Message::from_read(4, Some(vec![])), Message::Ignored(4)));
    match Message::from_read(4, Some(vec![7, 8])) {
        Message::DataUpdated(id, data) => assert_eq!((id, data), (4, vec![7, 8])),
        other => panic!("unexpected {:?}", other),
    }
}
