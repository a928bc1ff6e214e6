//! The screen buffer as a mathematical value, and what each event and each
//! command makes of it.

use vstd::prelude::*;
use crate::ascii::{BS, CR, FF, NL, TAB};
use crate::cell::{cells_of_bytes, characters};
use crate::csi::{csi_command, CsiCommand, EraseMode};
use crate::line::{
    blank_line, blanked, cell_count, cells_of, deselected, reshaped, selected, with_char,
};
use crate::parser::{EventView, ParserModel};
use crate::position::Position;
use crate::rect::Rect;
use crate::sgr::{is_graphics, sgr, Style};
use crate::span::SpanView;
use crate::style::{Attributes, Colors};
use crate::text::trimmed_end;

verus! {

/// The largest number of lines that a screen buffer keeps unless told otherwise.
pub const MAX_SCROLLBACK: usize = 10000;

/// The shortest time, in milliseconds, between two renders.
pub const MIN_RENDER_INTERVAL: u64 = 33;

/// How far the buffer is into the deletion sequence backspace, space, backspace.
#[derive(Debug, Clone, Copy, PartialEq, Eq, Structural)]
pub enum Deletion {
    /// Not in the sequence.
    Idle,
    /// The last event was a backspace.
    Backspace,
    /// The last two events were a backspace and a text run of one space.
    BackspaceSpace,
}

/// An end of the selection: a column and a line of the scrollback.
pub type Anchor = (u16, usize);

/// The screen buffer as a value.
pub struct BufferModel {
    /// Size and place of the screen.
    pub rect: Rect,
    /// The scrollback, oldest line first.
    pub lines: Seq<Seq<SpanView>>,
    /// The line of the scrollback at the top of the screen.
    pub view_start: nat,
    /// The cursor: a column and a line of the scrollback.
    pub cursor: Position,
    /// Where the selection was started.
    pub selection_start: Option<Anchor>,
    /// Where the selection reaches to.
    pub selection_end: Option<Anchor>,
    /// How many lines the scrollback may hold.
    pub max_scrollback: nat,
    /// When the last render took place, in milliseconds.
    pub last_render: Option<u64>,
    /// Whether something changed since the last render.
    pub needs_render: bool,
    /// The byte parser.
    pub parser: ParserModel,
    /// The colors and attributes in force.
    pub style: Style,
    /// The configured colors.
    pub defaults: Colors,
    /// The row under construction: the spans that are closed.
    pub line: Seq<SpanView>,
    /// The span under construction.
    pub span: SpanView,
    /// Progress through the deletion sequence.
    pub deletion: Deletion,
}

/// The smaller of two numbers.
pub open spec fn least(a: int, b: int) -> int {
    if a <= b {
        a
    } else {
        b
    }
}

/// `a - b`, or zero where `b` is the larger.
pub open spec fn minus(a: int, b: int) -> nat {
    if a >= b {
        (a - b) as nat
    } else {
        0
    }
}

/// `lines` with the rows from `from` up to but not including `to` left without spans.
pub open spec fn cleared_rows(lines: Seq<Seq<SpanView>>, from: int, to: int) -> Seq<Seq<SpanView>> {
    Seq::new(
        lines.len(),
        |i: int|
            if from <= i < to {
                Seq::<SpanView>::empty()
            } else {
                lines[i]
            },
    )
}

/// `lines` with the cells of row `y` from column `from` up to but not including `to` made blank.
pub open spec fn blanked_row(lines: Seq<Seq<SpanView>>, y: int, from: int, to: int) -> Seq<
    Seq<SpanView>,
> {
    if 0 <= y < lines.len() {
        lines.update(y, reshaped(lines[y], blanked(cells_of(lines[y]), from, to)))
    } else {
        lines
    }
}

/// The two ends of a selection in order: the one that comes first in the
/// scrollback, then the other.
pub open spec fn ordered(a: Anchor, b: Anchor) -> (Anchor, Anchor) {
    if a.1 < b.1 || (a.1 == b.1 && a.0 <= b.0) {
        (a, b)
    } else {
        (b, a)
    }
}

/// The first selected column of row `i`, for a selection from `s` to `e`.
pub open spec fn first_column(i: int, s: Anchor) -> int {
    if i == s.1 {
        s.0 as int
    } else {
        0
    }
}

/// The column after the last selected one of row `i`, for a selection from
/// `s` to `e` on a screen of `width` columns.
pub open spec fn end_column(i: int, e: Anchor, width: int) -> int {
    if i == e.1 {
        least(e.0 as int, width - 1) + 1
    } else {
        width
    }
}

/// `lines` with exactly the cells between the two ends selected: from the
/// first end's column on its row, all of the rows between, up to and
/// including the second end's column on its row.
pub open spec fn highlighted(lines: Seq<Seq<SpanView>>, width: int, a: Anchor, b: Anchor) -> Seq<
    Seq<SpanView>,
> {
    let (s, e) = ordered(a, b);
    Seq::new(
        lines.len(),
        |i: int|
            if s.1 <= i <= e.1 {
                reshaped(
                    lines[i],
                    selected(
                        deselected(cells_of(lines[i])),
                        first_column(i, s),
                        end_column(i, e, width),
                    ),
                )
            } else {
                reshaped(lines[i], deselected(cells_of(lines[i])))
            },
    )
}

/// `lines` with no cell selected.
pub open spec fn unselected(lines: Seq<Seq<SpanView>>) -> Seq<Seq<SpanView>> {
    Seq::new(lines.len(), |i: int| reshaped(lines[i], deselected(cells_of(lines[i]))))
}

/// The characters that row `i` gives to a selection from `s` to `e`: those
/// of its selected columns, and a line break if the selection goes on below.
pub open spec fn row_text(lines: Seq<Seq<SpanView>>, width: int, s: Anchor, e: Anchor, i: int) -> Seq<
    char,
> {
    if 0 <= i < lines.len() {
        let cells = cells_of(lines[i]);
        let from = least(first_column(i, s), cells.len() as int);
        let to = least(end_column(i, e, width), cells.len() as int);
        let picked = if from < to {
            characters(cells.subrange(from, to))
        } else {
            Seq::<char>::empty()
        };
        if i < e.1 {
            picked.push('\n')
        } else {
            picked
        }
    } else {
        Seq::empty()
    }
}

/// The characters of the rows from the selection's first row up to but not
/// including row `upto`.
pub open spec fn rows_text(
    lines: Seq<Seq<SpanView>>,
    width: int,
    s: Anchor,
    e: Anchor,
    upto: int,
) -> Seq<char>
    decreases upto - s.1,
{
    if upto <= s.1 {
        Seq::empty()
    } else {
        rows_text(lines, width, s, e, upto - 1) + row_text(lines, width, s, e, upto - 1)
    }
}

/// The text of the selection between the two ends `a` and `b`, whichever
/// comes first: the characters of the selected cells, a line break between
/// rows, and no whitespace at the end.
pub open spec fn selected_text(lines: Seq<Seq<SpanView>>, width: int, a: Anchor, b: Anchor) -> Seq<
    char,
> {
    let (s, e) = ordered(a, b);
    trimmed_end(rows_text(lines, width, s, e, e.1 + 1))
}

impl BufferModel {
    /// The number of columns.
    pub open spec fn width(self) -> nat {
        self.rect.width as nat
    }

    /// The number of rows of the screen.
    pub open spec fn height(self) -> nat {
        self.rect.height as nat
    }

    /// The top line that shows the end of the scrollback.
    pub open spec fn bottom(self) -> nat {
        minus(self.lines.len() as int, self.height() as int)
    }

    /// The line after the last one on the screen.
    pub open spec fn view_end(self) -> int {
        least((self.view_start + self.height()) as int, self.lines.len() as int)
    }

    /// The cells that the row under construction can still take.
    pub open spec fn room(self) -> nat {
        minus(self.width() as int, (cell_count(self.line) + self.span.cells.len()) as int)
    }

    /// What holds of every buffer: the scrollback is not empty and within its
    /// bound, the cursor is on a column of the screen and a line of the
    /// scrollback, the view is not beyond the bottom, and no row is wider than
    /// the screen.
    pub open spec fn wf(self) -> bool {
        &&& self.rect.width >= 1
        &&& self.rect.height >= 1
        &&& 1 <= self.max_scrollback <= u16::MAX
        &&& 1 <= self.lines.len() <= self.max_scrollback
        &&& self.cursor.x < self.rect.width
        &&& self.cursor.y < self.lines.len()
        &&& self.view_start <= self.bottom()
        &&& forall|i: int| 0 <= i < self.lines.len() ==> cell_count(#[trigger] self.lines[i]) <= self.width()
        &&& cell_count(self.line) + self.span.cells.len() <= self.width()
        &&& self.parser.events.len() == 0
    }

    /// The buffer at the start of a session: one blank row, cursor and view at
    /// the origin, nothing selected, nothing to render, the configured colors
    /// in force.
    pub open spec fn initial(rect: Rect, defaults: Colors, max_scrollback: nat) -> BufferModel {
        BufferModel {
            rect,
            lines: seq![blank_line(rect.width as nat, defaults)],
            view_start: 0,
            cursor: Position::origin_spec(),
            selection_start: None,
            selection_end: None,
            max_scrollback,
            last_render: None,
            needs_render: false,
            parser: ParserModel::initial(),
            style: Style { colors: defaults, attrs: Attributes::empty() },
            defaults,
            line: Seq::empty(),
            span: SpanView::styled(defaults, Attributes::empty()),
            deletion: Deletion::Idle,
        }
    }

    /// A blank row of the screen's width in the configured colors.
    pub open spec fn blank_row(self) -> Seq<SpanView> {
        blank_line(self.width(), self.defaults)
    }

    /// Appends `row` to the scrollback. Where that would take the scrollback
    /// beyond its bound, the oldest line is dropped, and cursor and view move
    /// up by one line with it, as far as they can.
    pub open spec fn push_line(self, row: Seq<SpanView>) -> BufferModel {
        if self.lines.len() + 1 > self.max_scrollback {
            BufferModel {
                lines: self.lines.push(row).skip(1),
                cursor: Position { y: minus(self.cursor.y as int, 1) as u16, ..self.cursor },
                view_start: minus(self.view_start as int, 1),
                ..self
            }
        } else {
            BufferModel { lines: self.lines.push(row), ..self }
        }
    }

    /// Appends `n` blank rows to the scrollback, one after another.
    pub open spec fn push_blank_rows(self, n: nat) -> BufferModel
        decreases n,
    {
        if n == 0 {
            self
        } else {
            let before = self.push_blank_rows((n - 1) as nat);
            before.push_line(before.blank_row())
        }
    }

    /// The buffer with the cursor at column `x` and line `y`.
    pub open spec fn with_cursor(self, x: int, y: int) -> BufferModel {
        BufferModel { cursor: Position { x: x as u16, y: y as u16 }, ..self }
    }

    /// A text run: its bytes become cells of the span under construction, as
    /// long as the row has room. What does not fit is dropped.
    pub open spec fn text(self, run: Seq<u8>) -> BufferModel {
        let n = least(run.len() as int, self.room() as int);
        BufferModel {
            span: self.span.with_cells(self.span.cells + cells_of_bytes(run.take(n))),
            deletion: if self.deletion == Deletion::Backspace && run == seq![0x20u8] {
                Deletion::BackspaceSpace
            } else {
                Deletion::Idle
            },
            ..self
        }
    }

    /// Backspace: the cursor moves left by one column, as far as it can. The
    /// backspace that ends the sequence backspace, space, backspace does not
    /// move the cursor again: it makes the cell under the cursor a space.
    pub open spec fn backspace(self) -> BufferModel {
        if self.deletion == Deletion::BackspaceSpace {
            let y = self.cursor.y as int;
            BufferModel {
                lines: if 0 <= y < self.lines.len() {
                    self.lines.update(
                        y,
                        reshaped(
                            self.lines[y],
                            with_char(cells_of(self.lines[y]), self.cursor.x as int, ' '),
                        ),
                    )
                } else {
                    self.lines
                },
                deletion: Deletion::Idle,
                ..self
            }
        } else {
            BufferModel {
                cursor: Position { x: minus(self.cursor.x as int, 1) as u16, ..self.cursor },
                deletion: Deletion::Backspace,
                ..self
            }
        }
    }

    /// Line feed: the span under construction is padded with blank cells to
    /// the end of the row and closed, the row goes to the end of the
    /// scrollback, and a new row and a new span in the style in force begin.
    pub open spec fn line_feed(self) -> BufferModel {
        let padded = self.span.resized(minus(self.width() as int, cell_count(self.line) as int));
        let pushed = self.push_line(self.line.push(padded));
        BufferModel {
            line: Seq::empty(),
            span: SpanView::styled(self.style.colors, self.style.attrs),
            deletion: Deletion::Idle,
            ..pushed
        }
    }

    /// Form feed: as many blank rows as the screen has go to the end of the
    /// scrollback, and the view moves down by the height of the screen, as far
    /// as the bottom.
    pub open spec fn form_feed(self) -> BufferModel {
        let pushed = self.push_blank_rows(self.height());
        BufferModel {
            view_start: least(
                (pushed.view_start + self.height()) as int,
                pushed.bottom() as int,
            ) as nat,
            deletion: Deletion::Idle,
            ..pushed
        }
    }

    /// The screen is cleared as by a form feed, and the buffer wants a render.
    pub open spec fn clear_screen(self) -> BufferModel {
        BufferModel { needs_render: true, ..self.form_feed() }
    }

    /// Tab: the cursor moves to the next column that is a multiple of 8, or
    /// to the last column where that is beyond it.
    pub open spec fn tab(self) -> BufferModel {
        let next = (self.cursor.x / 8 + 1) * 8;
        BufferModel {
            cursor: Position {
                x: least(next as int, self.width() - 1) as u16,
                ..self.cursor
            },
            deletion: Deletion::Idle,
            ..self
        }
    }

    /// A control byte. Backspace, carriage return, line feed, form feed and
    /// tab act; every other control byte is ignored.
    pub open spec fn control(self, b: u8) -> BufferModel {
        if b == BS {
            self.backspace()
        } else if b == CR {
            BufferModel {
                cursor: Position { x: 0, ..self.cursor },
                deletion: Deletion::Idle,
                ..self
            }
        } else if b == NL {
            self.line_feed()
        } else if b == FF {
            self.form_feed()
        } else if b == TAB {
            self.tab()
        } else {
            BufferModel { deletion: Deletion::Idle, ..self }
        }
    }

    /// A graphics sequence: the span under construction is closed if it has
    /// cells, the style in force is updated, and a new span in that style begins.
    pub open spec fn graphics(self, seq: Seq<u8>) -> BufferModel {
        let style = sgr(seq, self.style, self.defaults);
        BufferModel {
            line: if self.span.cells.len() > 0 {
                self.line.push(self.span)
            } else {
                self.line
            },
            span: SpanView::styled(style.colors, style.attrs),
            style,
            deletion: Deletion::Idle,
            ..self
        }
    }

    /// The cursor `n` rows further down at the start of the row, with blank
    /// rows appended to the scrollback as far as that row is beyond its end.
    pub open spec fn next_line(self, n: u16) -> BufferModel {
        let target = self.cursor.y + n;
        if target < self.lines.len() {
            self.with_cursor(0, target)
        } else {
            let pushed = self.push_blank_rows((target + 1 - self.lines.len()) as nat);
            pushed.with_cursor(0, pushed.lines.len() - 1)
        }
    }

    /// Erases in the cursor's row: cells become blank, or the whole row loses
    /// its spans.
    pub open spec fn erase_line(self, mode: EraseMode) -> BufferModel {
        let y = self.cursor.y as int;
        let x = self.cursor.x as int;
        match mode {
            EraseMode::ToEnd => BufferModel {
                lines: blanked_row(self.lines, y, x, self.width() as int),
                ..self
            },
            EraseMode::ToStart => BufferModel { lines: blanked_row(self.lines, y, 0, x), ..self },
            EraseMode::All => BufferModel { lines: cleared_rows(self.lines, y, y + 1), ..self },
        }
    }

    /// Erases in the screen: the part of the cursor's row as for the row, and
    /// every row of the screen below, above, or at all.
    pub open spec fn erase_display(self, mode: EraseMode) -> BufferModel {
        let y = self.cursor.y as int;
        match mode {
            EraseMode::ToEnd => {
                let row = self.erase_line(EraseMode::ToEnd);
                BufferModel { lines: cleared_rows(row.lines, y + 1, self.view_end()), ..row }
            },
            EraseMode::ToStart => {
                let row = self.erase_line(EraseMode::ToStart);
                BufferModel { lines: cleared_rows(row.lines, self.view_start as int, y), ..row }
            },
            EraseMode::All => BufferModel {
                lines: cleared_rows(self.lines, self.view_start as int, self.view_end()),
                ..self
            },
        }
    }

    /// A command for the cursor or the cells. The cursor stops at the first
    /// and last column and at the first and last line; a row or column counted
    /// from 1 takes 0 for 1.
    pub open spec fn command(self, c: CsiCommand) -> BufferModel {
        let x = self.cursor.x as int;
        let y = self.cursor.y as int;
        let last_x = self.width() - 1;
        let last_y = self.lines.len() - 1;
        match c {
            CsiCommand::CursorUp(n) => self.with_cursor(x, minus(y, n as int) as int),
            CsiCommand::CursorDown(n) => self.with_cursor(x, least(y + n, last_y)),
            CsiCommand::CursorRight(n) => self.with_cursor(least(x + n, last_x), y),
            CsiCommand::CursorLeft(n) => self.with_cursor(minus(x, n as int) as int, y),
            CsiCommand::NextLine(n) => self.next_line(n),
            CsiCommand::PreviousLine(n) => self.with_cursor(0, minus(y, n as int) as int),
            CsiCommand::Column(n) => self.with_cursor(least(n as int, last_x), y),
            CsiCommand::MoveTo { row, col } => self.with_cursor(
                least(minus(col as int, 1) as int, last_x),
                least((self.view_start + minus(row as int, 1)) as int, last_y),
            ),
            CsiCommand::EraseDisplay(mode) => self.erase_display(mode),
            CsiCommand::EraseLine(mode) => self.erase_line(mode),
            CsiCommand::Unknown => self,
        }
    }

    /// An escape sequence: the graphics mode where it ends in `m`, a command
    /// for the cursor or the cells otherwise.
    pub open spec fn escape(self, seq: Seq<u8>) -> BufferModel {
        if is_graphics(seq) {
            self.graphics(seq)
        } else {
            BufferModel { deletion: Deletion::Idle, ..self.command(csi_command(seq)) }
        }
    }

    /// One event of the parser.
    pub open spec fn event(self, e: EventView) -> BufferModel {
        match e {
            EventView::Text(run) => self.text(run),
            EventView::Control(b) => self.control(b),
            EventView::EscapeSequence(seq) => self.escape(seq),
        }
    }

    /// The events of `events`, first to last.
    pub open spec fn events(self, events: Seq<EventView>) -> BufferModel
        decreases events.len(),
    {
        if events.len() == 0 {
            self
        } else {
            self.events(events.drop_last()).event(events.last())
        }
    }

    /// A batch of bytes from the device: the parser takes them, the buffer
    /// takes the parser's events, the view goes to the bottom of the
    /// scrollback, and the buffer wants a render.
    pub open spec fn add_data(self, data: Seq<u8>) -> BufferModel {
        let fed = self.parser.feed(data);
        let taken = (BufferModel { parser: fed.quiet(), ..self }).events(fed.events);
        BufferModel { view_start: taken.bottom(), needs_render: true, ..taken }
    }

    /// The buffer with no cell selected and no end of a selection kept.
    pub open spec fn clear_selection(self) -> BufferModel {
        BufferModel {
            lines: unselected(self.lines),
            selection_start: None,
            selection_end: None,
            needs_render: true,
            ..self
        }
    }

    /// The view `n` lines further up, as far as the first line; the
    /// selection is cleared.
    pub open spec fn scroll_up(self, n: usize) -> BufferModel {
        BufferModel {
            view_start: minus(self.view_start as int, n as int),
            ..self.clear_selection()
        }
    }

    /// The view `n` lines further down, as far as the bottom; the selection
    /// is cleared.
    pub open spec fn scroll_down(self, n: usize) -> BufferModel {
        BufferModel {
            view_start: least(self.view_start + n, self.bottom() as int) as nat,
            ..self.clear_selection()
        }
    }

    /// The view at the bottom of the scrollback.
    pub open spec fn scroll_to_bottom(self) -> BufferModel {
        BufferModel { view_start: self.bottom(), needs_render: true, ..self }
    }

    /// The view at the first line of the scrollback.
    pub open spec fn scroll_to_top(self) -> BufferModel {
        BufferModel { view_start: 0, needs_render: true, ..self }
    }

    /// The line of the scrollback under the row `pos.y` of the screen, with
    /// the column `pos.x`.
    pub open spec fn anchor(self, pos: Position) -> Anchor {
        (pos.x, (self.view_start + pos.y) as usize)
    }

    /// A selection is started at the position `pos` of the screen; an earlier
    /// selection is cleared.
    pub open spec fn start_selection(self, pos: Position) -> BufferModel {
        BufferModel { selection_start: Some(self.anchor(pos)), ..self.clear_selection() }
    }

    /// The selection reaches to the position `pos` of the screen: exactly the
    /// cells between its two ends are selected. Without a start nothing is.
    pub open spec fn update_selection(self, pos: Position) -> BufferModel {
        let end = self.anchor(pos);
        BufferModel {
            selection_end: Some(end),
            lines: match self.selection_start {
                Some(start) => highlighted(self.lines, self.width() as int, start, end),
                None => unselected(self.lines),
            },
            needs_render: true,
            ..self
        }
    }

    /// The text of the selection, or no text where an end is missing.
    pub open spec fn selection_text(self) -> Seq<char> {
        match (self.selection_start, self.selection_end) {
            (Some(a), Some(b)) => selected_text(self.lines, self.width() as int, a, b),
            _ => Seq::empty(),
        }
    }

    /// The buffer with its scrollback dropped: one blank row, cursor and view
    /// at the origin.
    pub open spec fn clear_buffer(self) -> BufferModel {
        BufferModel {
            lines: seq![self.blank_row()],
            view_start: 0,
            cursor: Position::origin_spec(),
            needs_render: true,
            ..self
        }
    }

    /// Whether a render is due at the time `now`: something changed, and
    /// either nothing was rendered yet or the last render was at least the
    /// shortest interval ago.
    pub open spec fn render_due(self, now: u64) -> bool {
        self.needs_render && match self.last_render {
            Some(last) => now >= last && now - last >= MIN_RENDER_INTERVAL,
            None => true,
        }
    }
}

/// What holds of every well-formed buffer, spelled out: the scrollback is
/// within its bound, the cursor is on a column of the screen and on a line of
/// the scrollback, the view is not beyond the bottom, and no line is wider
/// than the screen.
pub proof fn lemma_bounds(m: BufferModel)
    requires
        m.wf(),
    ensures
        m.lines.len() <= m.max_scrollback,
        0 <= m.cursor.x < m.width(),
        0 <= m.cursor.y < m.lines.len(),
        0 <= m.view_start <= minus(m.lines.len() as int, m.height() as int),
        forall|i: int| 0 <= i < m.lines.len() ==> cell_count(#[trigger] m.lines[i]) <= m.width(),
{
}

/// The text of a selection does not depend on which of its ends was given first.
pub proof fn lemma_selection_symmetric(
    lines: Seq<Seq<SpanView>>,
    width: int,
    a: Anchor,
    b: Anchor,
)
    ensures
        selected_text(lines, width, a, b) == selected_text(lines, width, b, a),
        highlighted(lines, width, a, b) == highlighted(lines, width, b, a),
{
}

} // verus!
