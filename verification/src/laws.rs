//! What every operation of the screen buffer keeps: the bound of the
//! scrollback, the bounds of cursor and view, and the width of the rows.

use vstd::prelude::*;
use crate::ascii::{BS, FF, NL};
use crate::cell::{blanks, cells_of_bytes, Cell};
use crate::csi::{csi_command, CsiCommand, EraseMode};
use crate::sgr::is_graphics;
use crate::line::{
    blanked, cell_count, cells_of, deselected, lemma_cells_len, lemma_push_span, lemma_reshaped,
    reshaped, selected, with_char,
};
use crate::model::{
    blanked_row, cleared_rows, end_column, first_column, highlighted, minus, ordered, unselected,
    BufferModel, Deletion,
};
use crate::parser::{lemma_feed_text_line, printable, EventView, ParserModel};
use crate::rect::Rect;
use crate::screen_buffer::lemma_blank_line_count;
use crate::span::SpanView;
use crate::stdout_task::TaskModel;
use crate::style::Colors;
use crate::ui_command::UICommand;

verus! {

/// A row given other cells, as many as it has, is as wide as before.
proof fn lemma_reshaped_count(row: Seq<SpanView>, cells: Seq<Cell>)
    requires
        cells.len() == cells_of(row).len(),
    ensures
        cell_count(reshaped(row, cells)) == cell_count(row),
{
    lemma_cells_len(row);
    lemma_reshaped(row, cells);
}

/// The buffer at the start of a session is well formed.
pub proof fn lemma_initial_wf(rect: Rect, defaults: Colors, max_scrollback: nat)
    requires
        rect.width >= 1,
        rect.height >= 1,
        1 <= max_scrollback <= u16::MAX,
    ensures
        BufferModel::initial(rect, defaults, max_scrollback).wf(),
{
    lemma_blank_line_count(rect.width as nat, defaults);
}

/// Appending a row that is not wider than the screen keeps the buffer well formed.
pub proof fn lemma_push_line_wf(m: BufferModel, row: Seq<SpanView>)
    requires
        m.wf(),
        cell_count(row) <= m.width(),
    ensures
        m.push_line(row).wf(),
{
}

/// Appending blank rows keeps the buffer well formed, and changes nothing
/// but scrollback, cursor and view.
pub proof fn lemma_push_blank_rows_wf(m: BufferModel, n: nat)
    requires
        m.wf(),
    ensures
        m.push_blank_rows(n).wf(),
        m.push_blank_rows(n) == (BufferModel {
            lines: m.push_blank_rows(n).lines,
            cursor: m.push_blank_rows(n).cursor,
            view_start: m.push_blank_rows(n).view_start,
            ..m
        }),
    decreases n,
{
    if n > 0 {
        let before = m.push_blank_rows((n - 1) as nat);
        lemma_push_blank_rows_wf(m, (n - 1) as nat);
        lemma_blank_line_count(before.width(), before.defaults);
    }
}

/// Rows made blank in part, or left without spans, are not wider than before.
proof fn lemma_erased_rows(m: BufferModel, lines: Seq<Seq<SpanView>>)
    requires
        m.wf(),
        lines.len() == m.lines.len(),
        forall|i: int|
            0 <= i < lines.len() ==> cell_count(#[trigger] lines[i]) <= cell_count(m.lines[i]),
    ensures
        (BufferModel { lines, ..m }).wf(),
{
}

/// A row with cells made blank is as wide as before.
proof fn lemma_blanked_row(lines: Seq<Seq<SpanView>>, y: int, from: int, to: int)
    ensures
        blanked_row(lines, y, from, to).len() == lines.len(),
        forall|i: int|
            0 <= i < lines.len() ==> cell_count(#[trigger] blanked_row(lines, y, from, to)[i])
                <= cell_count(lines[i]),
{
    if 0 <= y < lines.len() {
        lemma_reshaped_count(lines[y], blanked(cells_of(lines[y]), from, to));
    }
}

/// Rows left without spans have no cells.
proof fn lemma_cleared_rows(lines: Seq<Seq<SpanView>>, from: int, to: int)
    ensures
        cleared_rows(lines, from, to).len() == lines.len(),
        forall|i: int|
            0 <= i < lines.len() ==> cell_count(#[trigger] cleared_rows(lines, from, to)[i])
                <= cell_count(lines[i]),
{
}

/// Erasing in the cursor's row keeps the buffer well formed.
pub proof fn lemma_erase_line_wf(m: BufferModel, mode: EraseMode)
    requires
        m.wf(),
    ensures
        m.erase_line(mode).wf(),
        m.erase_line(mode) == (BufferModel { lines: m.erase_line(mode).lines, ..m }),
        m.erase_line(mode).lines.len() == m.lines.len(),
{
    let y = m.cursor.y as int;
    let x = m.cursor.x as int;
    lemma_blanked_row(m.lines, y, x, m.width() as int);
    lemma_blanked_row(m.lines, y, 0, x);
}

/// Erasing in the screen keeps the buffer well formed.
pub proof fn lemma_erase_display_wf(m: BufferModel, mode: EraseMode)
    requires
        m.wf(),
    ensures
        m.erase_display(mode).wf(),
{
    let y = m.cursor.y as int;
    match mode {
        EraseMode::ToEnd => {
            let row = m.erase_line(EraseMode::ToEnd);
            lemma_erase_line_wf(m, EraseMode::ToEnd);
        },
        EraseMode::ToStart => {
            let row = m.erase_line(EraseMode::ToStart);
            lemma_erase_line_wf(m, EraseMode::ToStart);
        },
        EraseMode::All => {
        },
    }
}

/// A command for the cursor or the cells keeps the buffer well formed.
pub proof fn lemma_command_wf(m: BufferModel, c: CsiCommand)
    requires
        m.wf(),
    ensures
        m.command(c).wf(),
{
    match c {
        CsiCommand::NextLine(n) => {
            let target = m.cursor.y + n;
            if target >= m.lines.len() {
                lemma_push_blank_rows_wf(m, (target + 1 - m.lines.len()) as nat);
            }
        },
        CsiCommand::EraseDisplay(mode) => {
            lemma_erase_display_wf(m, mode);
        },
        CsiCommand::EraseLine(mode) => {
            lemma_erase_line_wf(m, mode);
        },
        _ => {},
    }
}

/// A control byte keeps the buffer well formed.
pub proof fn lemma_control_wf(m: BufferModel, b: u8)
    requires
        m.wf(),
    ensures
        m.control(b).wf(),
{
    if b == BS {
        if m.deletion == Deletion::BackspaceSpace {
            let y = m.cursor.y as int;
            lemma_reshaped_count(
                m.lines[y],
                with_char(cells_of(m.lines[y]), m.cursor.x as int, ' '),
            );
        }
    } else if b == NL {
        let cap = minus(m.width() as int, cell_count(m.line) as int);
        let padded = m.span.resized(cap);
        lemma_push_span(m.line, padded);
    } else if b == FF {
        lemma_push_blank_rows_wf(m, m.height());
    }
}

/// An event of the parser keeps the buffer well formed.
pub proof fn lemma_event_wf(m: BufferModel, e: EventView)
    requires
        m.wf(),
    ensures
        m.event(e).wf(),
{
    match e {
        EventView::Text(run) => {},
        EventView::Control(b) => {
            lemma_control_wf(m, b);
        },
        EventView::EscapeSequence(seq) => {
            if is_graphics(seq) {
                if m.span.cells.len() > 0 {
                    lemma_push_span(m.line, m.span);
                }
            } else {
                lemma_command_wf(m, csi_command(seq));
            }
        },
    }
}

/// The events of the parser, one after another, keep the buffer well formed.
pub proof fn lemma_events_wf(m: BufferModel, events: Seq<EventView>)
    requires
        m.wf(),
    ensures
        m.events(events).wf(),
    decreases events.len(),
{
    if events.len() > 0 {
        lemma_events_wf(m, events.drop_last());
        lemma_event_wf(m.events(events.drop_last()), events.last());
    }
}

/// A batch of bytes keeps the buffer well formed: whatever the device
/// sends, the scrollback stays within its bound, the cursor on the screen's
/// columns and the scrollback's lines, the view not beyond the bottom, and
/// every row within the width of the screen.
pub proof fn lemma_add_data_wf(m: BufferModel, data: Seq<u8>)
    requires
        m.wf(),
    ensures
        m.add_data(data).wf(),
{
    let fed = m.parser.feed(data);
    lemma_events_wf(BufferModel { parser: fed.quiet(), ..m }, fed.events);
}

/// The batches of `chunks` taken one after another.
pub open spec fn add_all(m: BufferModel, chunks: Seq<Seq<u8>>) -> BufferModel
    decreases chunks.len(),
{
    if chunks.len() == 0 {
        m
    } else {
        add_all(m, chunks.drop_last()).add_data(chunks.last())
    }
}

/// After any sequence of batches from the start of a session the buffer is
/// well formed.
pub proof fn lemma_stream_wf(rect: Rect, defaults: Colors, max_scrollback: nat, chunks: Seq<Seq<u8>>)
    requires
        rect.width >= 1,
        rect.height >= 1,
        1 <= max_scrollback <= u16::MAX,
    ensures
        add_all(BufferModel::initial(rect, defaults, max_scrollback), chunks).wf(),
    decreases chunks.len(),
{
    lemma_initial_wf(rect, defaults, max_scrollback);
    if chunks.len() > 0 {
        lemma_stream_wf(rect, defaults, max_scrollback, chunks.drop_last());
        lemma_add_data_wf(
            add_all(BufferModel::initial(rect, defaults, max_scrollback), chunks.drop_last()),
            chunks.last(),
        );
    }
}

/// A line of text comes back as it was sent. Where nothing is pending, the
/// scrollback has room and the text fits into a row, a batch made of
/// printable text and a line feed appends exactly one row to the scrollback:
/// one span in the style of the span under construction that holds the text
/// and then blank cells up to the width of the screen. The rows that were
/// there stay as they are.
pub proof fn lemma_line_round_trip(m: BufferModel, run: Seq<u8>)
    requires
        m.wf(),
        m.parser == ParserModel::initial(),
        m.line.len() == 0,
        m.span.cells.len() == 0,
        m.lines.len() < m.max_scrollback,
        printable(run),
        run.len() <= m.width(),
    ensures
        m.add_data(run.push(NL)).lines == m.lines.push(
            seq![
                m.span.with_cells(
                    cells_of_bytes(run) + blanks((m.width() - run.len()) as nat),
                ),
            ],
        ),
{
    lemma_feed_text_line(run, NL);
    let fed = m.parser.feed(run.push(NL));
    let start = BufferModel { parser: fed.quiet(), ..m };
    let typed = if run.len() > 0 {
        start.text(run)
    } else {
        start
    };
    assert(start.events(fed.events) == typed.control(NL)) by {
        if run.len() > 0 {
            let both = seq![EventView::Text(run), EventView::Control(NL)];
            assert(both.drop_last().drop_last() =~= Seq::<EventView>::empty());
            assert(start.events(both.drop_last()) == start.text(run));
        } else {
            let one = seq![EventView::Control(NL)];
            assert(one.drop_last() =~= Seq::<EventView>::empty());
            assert(start.events(Seq::<EventView>::empty()) == start);
        }
    }
    let padded = typed.span.resized(m.width());
    assert(padded.cells =~= cells_of_bytes(run) + blanks((m.width() - run.len()) as nat));
    assert(m.line.push(padded) =~= seq![padded]);
}

/// Clearing the selection keeps the rows as wide as they are.
proof fn lemma_unselected(m: BufferModel)
    requires
        m.wf(),
    ensures
        forall|i: int|
            0 <= i < m.lines.len() ==> cell_count(#[trigger] unselected(m.lines)[i]) <= m.width(),
{
    let lines = unselected(m.lines);
    assert forall|i: int| 0 <= i < m.lines.len() implies cell_count(#[trigger] lines[i])
        <= m.width() by {
        lemma_reshaped_count(m.lines[i], deselected(cells_of(m.lines[i])));
    }
}

/// Marking a selection keeps the rows as wide as they are.
proof fn lemma_highlighted(m: BufferModel, a: (u16, usize), b: (u16, usize))
    requires
        m.wf(),
    ensures
        forall|i: int|
            0 <= i < m.lines.len() ==> cell_count(
                #[trigger] highlighted(m.lines, m.width() as int, a, b)[i],
            ) <= m.width(),
{
    let width = m.width() as int;
    let lines = highlighted(m.lines, width, a, b);
    let (s, e) = ordered(a, b);
    assert forall|i: int| 0 <= i < m.lines.len() implies cell_count(#[trigger] lines[i])
        <= m.width() by {
        let plain = deselected(cells_of(m.lines[i]));
        lemma_reshaped_count(m.lines[i], plain);
        lemma_reshaped_count(
            m.lines[i],
            selected(
                plain,
                first_column(i, s),
                end_column(i, e, width),
            ),
        );
    }
}

/// A command of the user interface keeps the buffer well formed.
pub proof fn lemma_ui_command_wf(m: BufferModel, c: UICommand)
    requires
        m.wf(),
    ensures
        TaskModel::commanded(m, c).wf(),
{
    lemma_unselected(m);
    match c {
        UICommand::UpdateSelection(pos) => {
            match m.selection_start {
                Some(start) => {
                    lemma_highlighted(m, start, m.anchor(pos));
                },
                None => {},
            }
        },
        UICommand::ClearBuffer => {
            lemma_blank_line_count(m.width(), m.defaults);
        },
        _ => {},
    }
}

/// A render keeps the buffer well formed.
pub proof fn lemma_rendered_wf(m: BufferModel, now: u64)
    requires
        m.wf(),
    ensures
        m.rendered(now).wf(),
{
}

} // verus!
