use sericom_core::cell::Cell;
use sericom_core::csi::{parse_csi, CsiCommand, EraseMode};
use sericom_core::line::Line;
use sericom_core::position::{Cursor, Position};
use sericom_core::rect::Rect;
use sericom_core::render::RenderOp;
use sericom_core::screen_buffer::ScreenBuffer;
use sericom_core::color_state::ColorState;
use sericom_core::span::Span;
use sericom_core::style::{all_attributes, Attribute, Attributes, Colors, TermColor};
use sericom_core::ui_command::UICommand;

const W: u16 = 80;
const H: u16 = 24;

fn defaults() -> Colors {
    Colors::new(TermColor::Green, TermColor::Reset)
}

fn buffer() -> ScreenBuffer {
    ScreenBuffer::new(Rect::new(Position::origin(), W, H), defaults())
}

fn small(width: u16, height: u16, max: usize) -> ScreenBuffer {
    ScreenBuffer::with_max_scrollback(Rect::new(Position::origin(), width, height), defaults(), max)
}

fn text_of(line: &Line) -> String {
    let mut out = String::new();
    for i in 0..line.len() {
        for c in line.get_span(i).unwrap().cells().iter() {
            out.push(c.character);
        }
    }
    out
}

fn row(sb: &ScreenBuffer, i: usize) -> String {
    text_of(sb.line(i).unwrap())
}

fn check_invariants(sb: &ScreenBuffer) {
    let w = sb.rect().width as usize;
    let h = sb.rect().height as usize;
    assert!(sb.len() >= 1);
    assert!(sb.len() <= sb.max_scrollback());
    assert!((sb.cursor().x as usize) < w);
    assert!((sb.cursor().y as usize) < sb.len());
    assert!(sb.view_start() <= sb.len().saturating_sub(h));
    for i in 0..sb.len() {
        assert!(sb.line(i).unwrap().num_cells() <= w);
    }
    assert!(sb.pending_line().num_cells() + sb.pending_span().len() <= w);
}

#[test]
fn plain_text_scenario() {
    let mut sb = buffer();
    sb.add_data(b"Hello, world!\n");
    assert_eq!(sb.len(), 2);
    let line = sb.line(1).unwrap();
    assert_eq!(line.num_cells(), 80);
    assert_eq!(text_of(line).trim_end(), "Hello, world!");
    assert_eq!(line.len(), 1);
    assert_eq!(line.get_span(0).unwrap().colors(), defaults());
    assert_eq!(line.get_span(0).unwrap().attrs(), Attributes::none());
    assert!(sb.needs_render());
    check_invariants(&sb);
}

#[test]
fn round_trip_text_leaves_other_lines_untouched() {
    let mut sb = buffer();
    sb.add_data(b"first\n");
    let before = sb.line(1).unwrap().clone();
    let seed = sb.line(0).unwrap().clone();
    sb.add_data(b"Hello\n");
    assert_eq!(row(&sb, 2).trim_end(), "Hello");
    assert_eq!(sb.line(1).unwrap(), &before);
    assert_eq!(sb.line(0).unwrap(), &seed);
    assert_eq!(sb.len(), 3);
}

#[test]
fn color_run_scenario() {
    let mut sb = buffer();
    sb.add_data(b"\x1b[31mRed\x1b[32mGreen\x1b[34mBlue\n");
    let line = sb.line(1).unwrap();
    assert_eq!(line.len(), 3);
    let want = [
        ("Red", TermColor::DarkRed),
        ("Green", TermColor::DarkGreen),
        ("Blue", TermColor::DarkBlue),
    ];
    for (i, (text, fg)) in want.iter().enumerate() {
        let span = line.get_span(i).unwrap();
        let got: String = span.cells().iter().map(|c| c.character).collect();
        assert_eq!(got.trim_end(), *text);
        assert_eq!(span.colors().foreground, *fg);
        assert_eq!(span.colors().background, TermColor::Reset);
    }
    assert_eq!(line.get_span(0).unwrap().len(), 3);
    assert_eq!(line.get_span(1).unwrap().len(), 5);
    assert_eq!(line.get_span(2).unwrap().len(), 72);
}

#[test]
fn attribute_compose_scenario() {
    let mut sb = buffer();
    sb.add_data(b"\x1b[1;3mHello\n");
    let span = sb.line(1).unwrap().get_span(0).unwrap();
    let got: String = span.cells().iter().map(|c| c.character).collect();
    assert_eq!(got.trim_end(), "Hello");
    assert!(span.attrs().has(Attribute::Bold));
    assert!(span.attrs().has(Attribute::Italic));
    assert_eq!(
        span.attrs(),
        Attributes::from(Attribute::Bold).with(Attributes::from(Attribute::Italic))
    );
}

#[test]
fn palette_and_reset_scenario() {
    let mut sb = buffer();
    sb.add_data(b"\x1b[38;5;202;48;5;27mOrangeOnBlue \x1b[0mResetHere\n");
    let line = sb.line(1).unwrap();
    assert_eq!(line.len(), 2);
    let first = line.get_span(0).unwrap();
    assert_eq!(first.colors(), Colors::new(TermColor::AnsiValue(202), TermColor::AnsiValue(27)));
    let t: String = first.cells().iter().map(|c| c.character).collect();
    assert_eq!(t, "OrangeOnBlue ");
    let second = line.get_span(1).unwrap();
    assert_eq!(second.colors(), defaults());
    assert_eq!(second.attrs(), Attributes::none());
    let t: String = second.cells().iter().map(|c| c.character).collect();
    assert_eq!(t.trim_end(), "ResetHere");
}

#[test]
fn truecolor_scenario() {
    let mut sb = buffer();
    sb.add_data(b"\x1b[38;2;128;200;64mTrueGreenish\n");
    let line = sb.line(1).unwrap();
    assert_eq!(line.len(), 1);
    assert_eq!(
        line.get_span(0).unwrap().colors().foreground,
        TermColor::Rgb { r: 128, g: 200, b: 64 }
    );
}

#[test]
fn incomplete_line_scenario() {
    let mut sb = buffer();
    sb.add_data(b"Hello");
    assert_eq!(sb.len(), 1);
    assert_eq!(sb.pending_span().len(), 5);
    assert_eq!(sb.pending_line().len(), 0);
    let t: String = sb.pending_span().cells().iter().map(|c| c.character).collect();
    assert_eq!(t, "Hello");
}

#[test]
fn cr_lf_pair_scenario() {
    let mut sb = buffer();
    sb.add_data(b"\r\nA");
    assert_eq!(sb.len(), 2);
    sb.add_data(b"\r\nB\r\n");
    assert_eq!(sb.len(), 4);
    assert_eq!(row(&sb, 2).trim_end(), "A");
    assert_eq!(row(&sb, 3).trim_end(), "B");
    let mut only_cr = buffer();
    only_cr.add_data(b"abc\rdef\r");
    assert_eq!(only_cr.len(), 1);
    assert_eq!(only_cr.cursor().x, 0);
}

#[test]
fn scroll_bound_scenario() {
    let mut sb = buffer();
    for i in 0..10005u32 {
        let line = format!("X{}\n", i);
        sb.add_data(line.as_bytes());
    }
    assert_eq!(sb.len(), 10000);
    assert_eq!(row(&sb, 0).trim_end(), "X5");
    assert_eq!(row(&sb, 9999).trim_end(), "X10004");
    assert_eq!(sb.view_start(), 10000 - 24);
    check_invariants(&sb);
}

#[test]
fn scroll_bound_with_plain_x_lines() {
    let mut sb = buffer();
    let mut data = Vec::new();
    for _ in 0..10005 {
        data.extend_from_slice(b"X\n");
    }
    sb.add_data(&data);
    assert_eq!(sb.len(), 10000);
    assert_eq!(row(&sb, 0).trim_end(), "X");
}

#[test]
fn selection_copy_scenario() {
    let mut sb = buffer();
    sb.add_data(b"\x1b[31mRed\x1b[32mGreen\x1b[34mBlue\n");
    sb.start_selection(Position::new(0, 1));
    sb.update_selection(Position::new(13, 1));
    for x in 0..80 {
        let cell = sb.line(1).unwrap().get_cell(x).unwrap();
        assert_eq!(cell.is_selected, x <= 13);
    }
    assert!(!sb.line(0).unwrap().get_cell(0).unwrap().is_selected);
    let text = sb.copy_to_clipboard();
    assert_eq!(text, "RedGreenBlue");
    assert_eq!(sb.selection(), (None, None));
    for x in 0..80 {
        assert!(!sb.line(1).unwrap().get_cell(x).unwrap().is_selected);
    }
}

#[test]
fn clear_buffer_scenario() {
    let mut sb = buffer();
    sb.add_data(b"\x1b[31mRed\x1b[32mGreen\x1b[34mBlue\n");
    let copied = sb.apply(UICommand::ClearBuffer);
    assert_eq!(copied, None);
    assert_eq!(sb.len(), 1);
    assert_eq!(sb.cursor(), Position::new(0, 0));
    assert_eq!(sb.view_start(), 0);
    assert_eq!(row(&sb, 0), " ".repeat(80));
    check_invariants(&sb);
}

#[test]
fn selection_is_the_same_in_both_directions() {
    let mut a = small(10, 4, 100);
    let mut b = small(10, 4, 100);
    for sb in [&mut a, &mut b] {
        sb.add_data(b"one\ntwo\nthree\nfour\n");
        sb.scroll_to_top();
    }
    a.start_selection(Position::new(1, 1));
    a.update_selection(Position::new(2, 3));
    b.start_selection(Position::new(2, 3));
    b.update_selection(Position::new(1, 1));
    assert_eq!(a.get_selected_text(), b.get_selected_text());
    assert_eq!(a.get_selected_text(), "ne       \ntwo       \nthr");
    for i in 0..a.len() {
        assert_eq!(a.line(i).unwrap(), b.line(i).unwrap());
    }
}

#[test]
fn selection_within_one_row_and_beyond_the_scrollback() {
    let mut sb = small(10, 4, 100);
    sb.add_data(b"abcdef\n");
    sb.scroll_to_top();
    sb.start_selection(Position::new(4, 1));
    sb.update_selection(Position::new(2, 1));
    assert_eq!(sb.get_selected_text(), "cde");
    sb.start_selection(Position::new(3, 1));
    sb.update_selection(Position::new(200, 3));
    assert_eq!(sb.get_selected_text(), "def");
    assert_eq!(sb.selection(), (Some((3, 1)), Some((200, 3))));
    sb.start_selection(Position::new(0, 9));
    sb.update_selection(Position::new(5, 12));
    assert_eq!(sb.get_selected_text(), "");
}

#[test]
fn update_without_start_selects_nothing() {
    let mut sb = small(10, 4, 100);
    sb.add_data(b"abcdef\n");
    sb.update_selection(Position::new(2, 1));
    assert_eq!(sb.get_selected_text(), "");
    for x in 0..10 {
        assert!(!sb.line(1).unwrap().get_cell(x).unwrap().is_selected);
    }
}

#[test]
fn text_past_the_last_column_is_dropped() {
    let mut sb = small(5, 3, 100);
    sb.add_data(b"abcdefgh\nxy\n");
    assert_eq!(row(&sb, 1), "abcde");
    assert_eq!(row(&sb, 2), "xy   ");
    check_invariants(&sb);
    let mut colored = small(5, 3, 100);
    colored.add_data(b"abc\x1b[31mdefgh\n");
    assert_eq!(row(&colored, 1), "abcde");
    assert_eq!(colored.line(1).unwrap().len(), 2);
    check_invariants(&colored);
}

#[test]
fn style_is_carried_across_batches() {
    let mut sb = buffer();
    sb.add_data(b"\x1b[1;31m");
    sb.add_data(b"bold red\n");
    let span = sb.line(1).unwrap().get_span(0).unwrap();
    assert_eq!(span.colors().foreground, TermColor::DarkRed);
    assert!(span.attrs().has(Attribute::Bold));
    sb.add_data(b"still\n");
    let span = sb.line(2).unwrap().get_span(0).unwrap();
    assert_eq!(span.colors().foreground, TermColor::DarkRed);
    assert!(span.attrs().has(Attribute::Bold));
    assert_eq!(sb.style().colors.foreground, TermColor::DarkRed);
}

#[test]
fn escape_sequence_split_over_two_batches() {
    let mut sb = buffer();
    sb.add_data(b"a\x1b[3");
    sb.add_data(b"2mb\n");
    let line = sb.line(1).unwrap();
    assert_eq!(line.len(), 2);
    assert_eq!(line.get_span(1).unwrap().colors().foreground, TermColor::DarkGreen);
}

#[test]
fn cursor_commands() {
    let mut sb = small(10, 4, 100);
    sb.add_data(b"1\n2\n3\n4\n5\n");
    assert_eq!(sb.len(), 6);
    assert_eq!(sb.view_start(), 2);
    sb.add_data(b"\x1b[H");
    assert_eq!(sb.cursor(), Position::new(0, 2));
    sb.add_data(b"\x1b[3;4H");
    assert_eq!(sb.cursor(), Position::new(3, 4));
    sb.add_data(b"\x1b[;7H");
    assert_eq!(sb.cursor(), Position::new(6, 2));
    sb.add_data(b"\x1b[2f");
    assert_eq!(sb.cursor(), Position::new(0, 3));
    sb.add_data(b"\x1b[0;0H");
    assert_eq!(sb.cursor(), Position::new(0, 2));
    sb.add_data(b"\x1b[99;99H");
    assert_eq!(sb.cursor(), Position::new(9, 5));
    sb.add_data(b"\x1b[2A");
    assert_eq!(sb.cursor(), Position::new(9, 3));
    sb.add_data(b"\x1b[A");
    assert_eq!(sb.cursor(), Position::new(9, 2));
    sb.add_data(b"\x1b[50A");
    assert_eq!(sb.cursor(), Position::new(9, 0));
    sb.add_data(b"\x1b[3B");
    assert_eq!(sb.cursor(), Position::new(9, 3));
    sb.add_data(b"\x1b[9B");
    assert_eq!(sb.cursor(), Position::new(9, 5));
    assert_eq!(sb.len(), 6);
    sb.add_data(b"\x1b[4D");
    assert_eq!(sb.cursor(), Position::new(5, 5));
    sb.add_data(b"\x1b[D");
    assert_eq!(sb.cursor(), Position::new(4, 5));
    sb.add_data(b"\x1b[9D");
    assert_eq!(sb.cursor(), Position::new(0, 5));
    sb.add_data(b"\x1b[3C");
    assert_eq!(sb.cursor(), Position::new(3, 5));
    sb.add_data(b"\x1b[70000C");
    assert_eq!(sb.cursor(), Position::new(9, 5));
    sb.add_data(b"\x1b[4G");
    assert_eq!(sb.cursor(), Position::new(4, 5));
    sb.add_data(b"\x1b[G");
    assert_eq!(sb.cursor(), Position::new(1, 5));
    sb.add_data(b"\x1b[40G");
    assert_eq!(sb.cursor(), Position::new(9, 5));
    sb.add_data(b"\x1b[2F");
    assert_eq!(sb.cursor(), Position::new(0, 3));
    sb.add_data(b"\x1b[9F");
    assert_eq!(sb.cursor(), Position::new(0, 0));
    sb.add_data(b"\x1b[3C\x1b[2E");
    assert_eq!(sb.cursor(), Position::new(0, 2));
    assert_eq!(sb.len(), 6);
    check_invariants(&sb);
}

#[test]
fn next_line_extends_the_scrollback() {
    let mut sb = small(10, 4, 100);
    sb.add_data(b"\x1b[3E");
    assert_eq!(sb.len(), 4);
    assert_eq!(sb.cursor(), Position::new(0, 3));
    for i in 0..4 {
        assert_eq!(row(&sb, i), " ".repeat(10));
    }
    check_invariants(&sb);
    let mut bounded = small(10, 4, 5);
    bounded.add_data(b"a\nb\n");
    assert_eq!(bounded.len(), 3);
    bounded.add_data(b"\x1b[1;1H\x1b[9E");
    assert_eq!(bounded.len(), 5);
    assert_eq!(bounded.cursor(), Position::new(0, 4));
    assert_eq!(row(&bounded, 0).trim_end(), "");
    check_invariants(&bounded);
}

#[test]
fn unknown_sequences_are_ignored() {
    let mut sb = small(10, 4, 100);
    sb.add_data(b"ab\n");
    let before = sb.cursor();
    sb.add_data(b"\x1b[?25h\x1b[2;3;4H\x1b[5Z\x1bM\x1b[3J\x1b[1;2A\x1b[xA");
    assert_eq!(sb.cursor(), before);
    assert_eq!(row(&sb, 1), "ab        ");
    assert_eq!(sb.len(), 2);
}

#[test]
fn command_reading() {
    assert_eq!(parse_csi(b"\x1b[A"), CsiCommand::CursorUp(1));
    assert_eq!(parse_csi(b"\x1b[12B"), CsiCommand::CursorDown(12));
    assert_eq!(parse_csi(b"\x1b[0C"), CsiCommand::CursorRight(0));
    assert_eq!(parse_csi(b"\x1b[007D"), CsiCommand::CursorLeft(7));
    assert_eq!(parse_csi(b"\x1b[65535E"), CsiCommand::NextLine(65535));
    assert_eq!(parse_csi(b"\x1b[65536F"), CsiCommand::PreviousLine(65535));
    assert_eq!(parse_csi(b"\x1b[99999999999999999999G"), CsiCommand::Column(65535));
    assert_eq!(parse_csi(b"\x1b[H"), CsiCommand::MoveTo { row: 1, col: 1 });
    assert_eq!(parse_csi(b"\x1b[;H"), CsiCommand::MoveTo { row: 1, col: 1 });
    assert_eq!(parse_csi(b"\x1b[5;H"), CsiCommand::MoveTo { row: 5, col: 1 });
    assert_eq!(parse_csi(b"\x1b[;6f"), CsiCommand::MoveTo { row: 1, col: 6 });
    assert_eq!(parse_csi(b"\x1b[7;8f"), CsiCommand::MoveTo { row: 7, col: 8 });
    assert_eq!(parse_csi(b"\x1b[J"), CsiCommand::EraseDisplay(EraseMode::ToEnd));
    assert_eq!(parse_csi(b"\x1b[0J"), CsiCommand::EraseDisplay(EraseMode::ToEnd));
    assert_eq!(parse_csi(b"\x1b[1J"), CsiCommand::EraseDisplay(EraseMode::ToStart));
    assert_eq!(parse_csi(b"\x1b[2J"), CsiCommand::EraseDisplay(EraseMode::All));
    assert_eq!(parse_csi(b"\x1b[3J"), CsiCommand::Unknown);
    assert_eq!(parse_csi(b"\x1b[K"), CsiCommand::EraseLine(EraseMode::ToEnd));
    assert_eq!(parse_csi(b"\x1b[1K"), CsiCommand::EraseLine(EraseMode::ToStart));
    assert_eq!(parse_csi(b"\x1b[2K"), CsiCommand::EraseLine(EraseMode::All));
    assert_eq!(parse_csi(b"\x1b[1;2K"), CsiCommand::Unknown);
    assert_eq!(parse_csi(b"\x1b[1;2;3H"), CsiCommand::Unknown);
    assert_eq!(parse_csi(b"\x1b[?1A"), CsiCommand::Unknown);
    assert_eq!(parse_csi(b"\x1b[1;xH"), CsiCommand::Unknown);
    assert_eq!(parse_csi(b"\x1b[1z"), CsiCommand::Unknown);
    assert_eq!(parse_csi(b"\x1bM"), CsiCommand::Unknown);
    assert_eq!(parse_csi(b"\x1b["), CsiCommand::Unknown);
    assert_eq!(parse_csi(b""), CsiCommand::Unknown);
}

#[test]
fn erase_in_line() {
    let mut sb = small(8, 4, 100);
    sb.add_data(b"abcdefgh\n");
    sb.add_data(b"\x1b[2;4H\x1b[K");
    assert_eq!(sb.cursor(), Position::new(3, 1));
    assert_eq!(row(&sb, 1), "abc     ");
    let mut sb = small(8, 4, 100);
    sb.add_data(b"abcdefgh\n\x1b[2;4H\x1b[1K");
    assert_eq!(row(&sb, 1), "   defgh");
    let mut sb = small(8, 4, 100);
    sb.add_data(b"abcdefgh\n\x1b[2;4H\x1b[2K");
    assert_eq!(row(&sb, 1), "");
    assert_eq!(sb.line(1).unwrap().len(), 0);
    check_invariants(&sb);
}

#[test]
fn erase_in_display() {
    let filled = |sb: &mut ScreenBuffer| {
        sb.add_data(b"aaaa\nbbbb\ncccc\ndddd\neeee\n");
    };
    let mut sb = small(4, 3, 100);
    filled(&mut sb);
    assert_eq!(sb.view_start(), 3);
    sb.add_data(b"\x1b[2;3H\x1b[J");
    assert_eq!(sb.cursor(), Position::new(2, 4));
    assert_eq!(row(&sb, 3), "cccc");
    assert_eq!(row(&sb, 4), "dd  ");
    assert_eq!(row(&sb, 5), "");
    assert_eq!(row(&sb, 2), "bbbb");

    let mut sb = small(4, 3, 100);
    filled(&mut sb);
    sb.add_data(b"\x1b[2;3H\x1b[1J");
    assert_eq!(row(&sb, 2), "bbbb");
    assert_eq!(row(&sb, 3), "");
    assert_eq!(row(&sb, 4), "  dd");
    assert_eq!(row(&sb, 5), "eeee");

    let mut sb = small(4, 3, 100);
    filled(&mut sb);
    sb.add_data(b"\x1b[2J");
    assert_eq!(row(&sb, 2), "bbbb");
    assert_eq!(row(&sb, 3), "");
    assert_eq!(row(&sb, 4), "");
    assert_eq!(row(&sb, 5), "");
    assert_eq!(sb.len(), 6);
    check_invariants(&sb);
}

#[test]
fn backspace_moves_left_and_the_deletion_sequence_blanks_a_cell() {
    let mut sb = small(8, 4, 100);
    sb.add_data(b"abcdefgh\n\x1b[2;5H");
    assert_eq!(sb.cursor(), Position::new(4, 1));
    sb.add_data(b"\x08");
    assert_eq!(sb.cursor(), Position::new(3, 1));
    assert_eq!(row(&sb, 1), "abcdefgh");
    sb.add_data(b" \x08");
    assert_eq!(sb.cursor(), Position::new(3, 1));
    assert_eq!(row(&sb, 1), "abc efgh");
    sb.add_data(b"\x08");
    assert_eq!(sb.cursor(), Position::new(2, 1));
    assert_eq!(row(&sb, 1), "abc efgh");
    sb.add_data(b"\x08 \x08\x08 \x08");
    assert_eq!(sb.cursor(), Position::new(0, 1));
    assert_eq!(row(&sb, 1), "  c efgh");
    sb.add_data(b"\x08\x08\x08");
    assert_eq!(sb.cursor(), Position::new(0, 1));
    sb.add_data(b"\x1b[2;8H\x08x\x08\x08  \x08");
    assert_eq!(sb.cursor(), Position::new(3, 1));
    assert_eq!(row(&sb, 1), "  c efgh");
}

#[test]
fn clearing_the_screen_keeps_the_scrollback() {
    let mut sb = small(4, 3, 100);
    sb.add_data(b"aaaa\nbbbb\n");
    sb.render(0);
    assert!(!sb.needs_render());
    sb.clear_screen();
    assert!(sb.needs_render());
    assert_eq!(sb.len(), 6);
    assert_eq!(sb.view_start(), 3);
    assert_eq!(row(&sb, 1), "aaaa");
    assert_eq!(row(&sb, 5), "    ");
    check_invariants(&sb);
}

#[test]
fn tab_moves_to_the_next_multiple_of_eight() {
    let mut sb = small(20, 4, 100);
    sb.add_data(b"\t");
    assert_eq!(sb.cursor().x, 8);
    sb.add_data(b"\x1b[3C\t");
    assert_eq!(sb.cursor().x, 16);
    sb.add_data(b"\t");
    assert_eq!(sb.cursor().x, 19);
    sb.add_data(b"\t");
    assert_eq!(sb.cursor().x, 19);
    check_invariants(&sb);
}

#[test]
fn form_feed_clears_the_screen() {
    let mut sb = small(4, 3, 100);
    sb.add_data(b"aaaa\nbbbb\n");
    assert_eq!(sb.len(), 3);
    sb.add_data(b"\x0c");
    assert_eq!(sb.len(), 6);
    assert_eq!(sb.view_start(), 3);
    for i in 3..6 {
        assert_eq!(row(&sb, i), "    ");
    }
    assert_eq!(row(&sb, 1), "aaaa");
    check_invariants(&sb);
}

#[test]
fn bell_and_shift_bytes_are_ignored() {
    let mut sb = small(4, 3, 100);
    sb.add_data(b"a\x07b\x0e\x0fc\x00\n");
    assert_eq!(row(&sb, 1), "abc ");
    assert_eq!(sb.cursor(), Position::new(0, 0));
}

#[test]
fn scrolling() {
    let mut sb = small(4, 3, 100);
    for i in 0..10 {
        sb.add_data(format!("{}\n", i).as_bytes());
    }
    assert_eq!(sb.len(), 11);
    assert_eq!(sb.view_start(), 8);
    sb.scroll_up(3);
    assert_eq!(sb.view_start(), 5);
    sb.scroll_up(100);
    assert_eq!(sb.view_start(), 0);
    sb.scroll_down(2);
    assert_eq!(sb.view_start(), 2);
    sb.scroll_down(usize::MAX);
    assert_eq!(sb.view_start(), 8);
    sb.scroll_to_top();
    assert_eq!(sb.view_start(), 0);
    sb.scroll_to_bottom();
    assert_eq!(sb.view_start(), 8);
    assert_eq!(sb.apply(UICommand::ScrollUp(1)), None);
    assert_eq!(sb.view_start(), 7);
    assert_eq!(sb.apply(UICommand::ScrollDown(1)), None);
    assert_eq!(sb.view_start(), 8);
    assert_eq!(sb.apply(UICommand::ScrollTop), None);
    assert_eq!(sb.view_start(), 0);
    assert_eq!(sb.apply(UICommand::ScrollBottom), None);
    assert_eq!(sb.view_start(), 8);
    check_invariants(&sb);
    let mut short = small(4, 3, 100);
    short.add_data(b"a\n");
    short.scroll_down(5);
    assert_eq!(short.view_start(), 0);
}

#[test]
fn scrolling_clears_the_selection() {
    let mut sb = small(6, 3, 100);
    sb.add_data(b"abc\ndef\n");
    sb.apply(UICommand::StartSelection(Position::new(0, 1)));
    sb.apply(UICommand::UpdateSelection(Position::new(2, 1)));
    assert!(sb.line(1).unwrap().get_cell(1).unwrap().is_selected);
    sb.scroll_up(1);
    assert_eq!(sb.selection(), (None, None));
    assert!(!sb.line(1).unwrap().get_cell(1).unwrap().is_selected);
    sb.apply(UICommand::StartSelection(Position::new(0, 1)));
    sb.apply(UICommand::UpdateSelection(Position::new(2, 1)));
    assert_eq!(sb.apply(UICommand::CopySelection), Some(String::from("abc")));
    assert_eq!(sb.selection(), (None, None));
}

#[test]
fn selection_is_in_view_coordinates() {
    let mut sb = small(6, 2, 100);
    sb.add_data(b"l1\nl2\nl3\nl4\n");
    assert_eq!(sb.view_start(), 3);
    sb.start_selection(Position::new(0, 0));
    sb.update_selection(Position::new(5, 1));
    assert_eq!(sb.selection(), (Some((0, 3)), Some((5, 4))));
    assert_eq!(sb.get_selected_text(), "l3    \nl4");
}

#[test]
fn cursor_trait_moves_stay_in_bounds() {
    let mut sb = small(10, 4, 100);
    sb.add_data(b"a\nb\n");
    sb.set_cursor_pos(Position::new(50, 50));
    assert_eq!(sb.cursor(), Position::new(9, 2));
    sb.move_cursor_left(3);
    assert_eq!(sb.cursor(), Position::new(6, 2));
    sb.move_cursor_up(1);
    assert_eq!(sb.cursor(), Position::new(6, 1));
    sb.move_cursor_down(1);
    assert_eq!(sb.cursor(), Position::new(6, 2));
    sb.move_cursor_down(u16::MAX);
    assert_eq!(sb.cursor(), Position::new(6, 2));
    sb.move_cursor_right(u16::MAX);
    assert_eq!(sb.cursor(), Position::new(9, 2));
    sb.set_cursor_col(4);
    assert_eq!(sb.cursor(), Position::new(4, 2));
    sb.command(CsiCommand::Unknown);
    assert_eq!(sb.cursor(), Position::new(4, 2));
    check_invariants(&sb);
}

#[test]
fn dropping_the_oldest_line_moves_cursor_and_view_up() {
    let mut sb = small(4, 2, 3);
    sb.add_data(b"a\nb\n");
    assert_eq!(sb.len(), 3);
    sb.add_data(b"\x1b[2;1H");
    assert_eq!(sb.cursor(), Position::new(0, 2));
    sb.add_data(b"c\n");
    assert_eq!(sb.len(), 3);
    assert_eq!(sb.cursor(), Position::new(0, 1));
    assert_eq!(row(&sb, 0).trim_end(), "a");
    assert_eq!(row(&sb, 2).trim_end(), "c");
    sb.add_data(b"d\ne\nf\n");
    assert_eq!(sb.cursor(), Position::new(0, 0));
    assert_eq!(sb.len(), 3);
    check_invariants(&sb);
}

#[test]
fn invariants_hold_on_a_mixed_stream() {
    let mut sb = small(7, 3, 6);
    let mut seed: u32 = 12345;
    let alphabet: &[&[u8]] = &[
        b"hello", b"\n", b"\r", b"\x08", b" ", b"\t", b"\x0c", b"\x1b[", b"3", b";", b"1", b"m", b"H",
        b"A", b"B", b"C", b"D", b"E", b"F", b"G", b"J", b"K", b"f", b"\x1b", b"38;5;", b"2", b"0",
        b"9999", b"\xff", b"long text that does not fit",
    ];
    for _ in 0..4000 {
        seed = seed.wrapping_mul(1664525).wrapping_add(1013904223);
        let pick = alphabet[(seed >> 16) as usize % alphabet.len()];
        sb.add_data(pick);
        check_invariants(&sb);
        assert_eq!(sb.view_start(), sb.len().saturating_sub(3));
        if seed % 7 == 0 {
            sb.scroll_up((seed >> 8) as usize % 5);
            check_invariants(&sb);
        }
        if seed % 11 == 0 {
            sb.start_selection(Position::new((seed >> 4) as u16 % 9, (seed >> 9) as u16 % 4));
            sb.update_selection(Position::new((seed >> 5) as u16 % 9, (seed >> 12) as u16 % 4));
            check_invariants(&sb);
        }
    }
}

#[test]
fn render_is_throttled() {
    let mut sb = small(3, 2, 10);
    assert!(!sb.should_render_now(0));
    assert_eq!(sb.render(0), vec![]);
    sb.add_data(b"a");
    assert!(sb.should_render_now(1000));
    let ops = sb.render(1000);
    assert!(!ops.is_empty());
    assert!(!sb.needs_render());
    assert!(!sb.should_render_now(5000));
    sb.add_data(b"b");
    assert!(!sb.should_render_now(1000));
    assert!(!sb.should_render_now(1032));
    assert!(sb.should_render_now(1033));
    assert!(!sb.should_render_now(999));
    assert_eq!(sb.render(1033).len(), ops.len());
    assert_eq!(sb.render(1034), vec![]);
}

#[test]
fn frame_of_a_small_screen() {
    let mut sb = small(3, 2, 10);
    sb.add_data(b"\x1b[31mab\n");
    let d = defaults();
    let red = Colors::new(TermColor::DarkRed, TermColor::Reset);
    let ops = sb.render(0);
    assert_eq!(
        ops,
        vec![
            RenderOp::HideCursor,
            RenderOp::MoveTo(0, 0),
            RenderOp::SetAttributes(Attributes::none()),
            RenderOp::SetColors(d),
            RenderOp::Print(' '),
            RenderOp::Print(' '),
            RenderOp::Print(' '),
            RenderOp::MoveTo(0, 1),
            RenderOp::SetColors(red),
            RenderOp::Print('a'),
            RenderOp::Print('b'),
            RenderOp::Print(' '),
            RenderOp::MoveTo(0, 0),
            RenderOp::ShowCursor,
            RenderOp::Flush,
        ]
    );
}

#[test]
fn frame_shows_selection_and_reverse_by_swapped_colors() {
    let mut sb = small(4, 1, 10);
    sb.add_data(b"\x1b[31;44mab\x1b[7mcd\n");
    assert_eq!(sb.view_start(), 1);
    sb.start_selection(Position::new(1, 0));
    sb.update_selection(Position::new(2, 0));
    let plain = Colors::new(TermColor::DarkRed, TermColor::DarkBlue);
    let swapped = Colors::new(TermColor::DarkBlue, TermColor::DarkRed);
    let ops = sb.frame();
    assert_eq!(
        ops,
        vec![
            RenderOp::HideCursor,
            RenderOp::MoveTo(0, 0),
            RenderOp::SetAttributes(Attributes::none()),
            RenderOp::SetColors(plain),
            RenderOp::Print('a'),
            RenderOp::SetColors(swapped),
            RenderOp::Print('b'),
            RenderOp::SetColors(plain),
            RenderOp::Print('c'),
            RenderOp::SetColors(swapped),
            RenderOp::Print('d'),
            RenderOp::MoveTo(0, 0),
            RenderOp::ShowCursor,
            RenderOp::Flush,
        ]
    );
}

#[test]
fn frame_changes_attributes_and_colors_together() {
    let mut sb = small(4, 1, 10);
    sb.add_data(b"a\x1b[1mb\x1b[31mc\n");
    let d = defaults();
    let bold = Attributes::from(Attribute::Bold);
    assert_eq!(
        sb.frame(),
        vec![
            RenderOp::HideCursor,
            RenderOp::MoveTo(0, 0),
            RenderOp::SetAttributes(Attributes::none()),
            RenderOp::SetColors(d),
            RenderOp::Print('a'),
            RenderOp::SetAttributes(bold),
            RenderOp::SetColors(d),
            RenderOp::Print('b'),
            RenderOp::SetColors(Colors::new(TermColor::DarkRed, TermColor::Reset)),
            RenderOp::Print('c'),
            RenderOp::Print(' '),
            RenderOp::MoveTo(0, 0),
            RenderOp::ShowCursor,
            RenderOp::Flush,
        ]
    );
}

#[test]
fn frame_fills_rows_below_the_scrollback_and_places_the_cursor() {
    let mut sb = small(2, 3, 10);
    sb.add_data(b"x\n\x1b[1;2H");
    assert_eq!(sb.cursor(), Position::new(1, 0));
    let ops = sb.frame();
    let prints = ops.iter().filter(|op| matches!(op, RenderOp::Print(_))).count();
    assert_eq!(prints, 6);
    assert_eq!(ops[ops.len() - 3], RenderOp::MoveTo(1, 0));
    sb.add_data(b"a\nb\nc\nd\n");
    assert_eq!(sb.view_start(), 3);
    let ops = sb.frame();
    assert_eq!(ops[ops.len() - 3], RenderOp::MoveTo(1, 2));
}

#[test]
fn spans() {
    let mut span = Span::reserve_new(4, defaults(), Attributes::none());
    assert!(span.is_empty());
    span.push(Cell::new('a'));
    span.fill_to_width(3);
    assert_eq!(span.len(), 3);
    assert_eq!(span.cells(), &vec![Cell::new('a'), Cell::empty(), Cell::empty()]);
    span.fill_to_width(2);
    assert_eq!(span.len(), 2);
    span.add_attr(Attribute::Bold);
    assert_eq!(span.attrs(), Attributes::from(Attribute::Bold));
    span.set_attrs(Attributes::from(Attribute::Dim));
    assert_eq!(span.attrs(), Attributes::from(Attribute::Dim));
    let red = Colors::new(TermColor::Red, TermColor::Black);
    span.set_colors(&ColorState::new(red));
    assert_eq!(span.colors(), red);
    span.reset(defaults());
    assert!(span.is_empty());
    assert_eq!(span.colors(), defaults());
    assert_eq!(span.attrs(), Attributes::none());
    let blank = Span::new_empty(2, red);
    assert_eq!(blank.cells(), &vec![Cell::empty(), Cell::empty()]);
    assert_eq!(blank.colors(), red);
    assert_eq!(blank.attrs(), Attributes::none());
}

#[test]
fn attribute_sets() {
    let mut set = Attributes::none();
    assert!(set.is_empty());
    set.set(Attribute::Reverse);
    set.set(Attribute::Bold);
    set.set(Attribute::Bold);
    assert!(set.has(Attribute::Reverse));
    assert!(set.has(Attribute::Bold));
    assert!(!set.has(Attribute::Dim));
    assert!(!set.is_empty());
    let without = set.without(Attribute::Reverse);
    assert_eq!(without, Attributes::from(Attribute::Bold));
    assert_eq!(without.without(Attribute::Reverse), without);
    assert_eq!(set.with(Attributes::from(Attribute::Dim)).without(Attribute::Dim), set);
    let all = all_attributes();
    assert_eq!(all.len(), 27);
    let mut every = Attributes::none();
    for (i, a) in all.iter().enumerate() {
        assert_eq!(a.position() as usize, i);
        assert!(!every.has(*a));
        every.set(*a);
        assert!(every.has(*a));
    }
    for a in all {
        assert_eq!(every.without(a).with(Attributes::from(a)), every);
    }
    assert_eq!(Colors::new(TermColor::Red, TermColor::Blue).swap(), Colors::new(TermColor::Blue, TermColor::Red));
}

#[test]
fn cells_and_lines() {
    let mut line = Line::new_empty(3, defaults());
    assert_eq!(line.len(), 1);
    assert_eq!(line.num_cells(), 3);
    line.set_char(1, 'x');
    line.set_char(9, 'y');
    assert_eq!(text_of(&line), " x ");
    line.select_range(1, 7);
    assert_eq!(line.get_cell(0), Some(Cell { character: ' ', is_selected: false }));
    assert_eq!(line.get_cell(1), Some(Cell { character: 'x', is_selected: true }));
    assert_eq!(line.get_cell(2), Some(Cell { character: ' ', is_selected: true }));
    assert_eq!(line.get_cell(3), None);
    line.clear_selection();
    assert_eq!(line.get_cell(1), Some(Cell::new('x')));
    line.blank_range(0, 2);
    assert_eq!(text_of(&line), "   ");
    line.put_cell(2, Cell::new('z'));
    assert_eq!(text_of(&line), "  z");
    line.reset();
    assert!(line.is_empty());
    assert_eq!(line.num_cells(), 0);
    let mut marked = Line::new_empty(4, defaults());
    marked.get_mut_cell(2).unwrap().character = 'q';
    marked.get_mut_cell(3).unwrap().is_selected = true;
    assert!(marked.get_mut_cell(4).is_none());
    assert_eq!(marked.get_cell(2), Some(Cell::new('q')));
    assert_eq!(marked.get_cell(3), Some(Cell { character: ' ', is_selected: true }));
    marked.get_mut_span(0).unwrap().push(Cell::new('r'));
    assert!(marked.get_mut_span(1).is_none());
    assert_eq!(text_of(&marked), "  q r");
    marked.reset_to(3);
    assert_eq!(text_of(&marked), "    r");
    assert!(marked.get_cell(3).unwrap().is_selected);
    marked.set_char(0, 'a');
    marked.set_char(1, 'b');
    marked.reset_from(1);
    assert_eq!(text_of(&marked), "a    ");
    assert!(!marked.get_cell(3).unwrap().is_selected);
    let span = marked.get_mut_span(0).unwrap();
    span.push_bytes(b"xyz");
    *span.get_mut(0).unwrap() = Cell::new('A');
    assert!(span.get_mut(8).is_none());
    span.put(1, Cell::new('B'));
    assert_eq!(span.get(1), Some(Cell::new('B')));
    assert_eq!(span.get(8), None);
    assert_eq!(text_of(&marked), "AB   xyz");
    let d = Line::new_default(4, defaults());
    assert_eq!(d.len(), 4);
    assert_eq!(d.num_cells(), 0);
    assert_eq!(Line::default().len(), 0);
    assert_eq!(Cell::default(), Cell::empty());
}
