//! Ingestion: what the screen buffer does with the bytes of the device.

use vstd::prelude::*;
use vstd::slice::slice_subrange;
use vstd::std_specs::convert::IntoSpec;
use crate::ascii::{BS, CR, FF, NL, TAB};
use crate::csi::{parse_csi, CsiCommand, EraseMode};
use crate::deque::get_mut;
use crate::line::{
    cell_count, cells_of, lemma_push_span, lemma_same_shape_count, reshaped, with_char, Line,
};
use crate::model::{blanked_row, cleared_rows, least, BufferModel, Deletion};
use crate::parser::{event_views, ParserEvent};
use crate::position::{Cursor, Position};
use crate::screen_buffer::{rows_of, ScreenBuffer};
use crate::sgr::{is_graphics, is_graphics_seq, process_colors};
use crate::span::Span;

verus! {

impl ScreenBuffer {
    /// A text run.
    pub(crate) fn text(&mut self, run: &[u8])
        requires
            old(self).wf(),
        ensures
            final(self)@ == old(self)@.text(run@),
            final(self).wf(),
    {
        let used = self.curr_line.num_cells() + self.curr_span.len();
        let room = self.rect.width as usize - used;
        let n = if run.len() < room {
            run.len()
        } else {
            room
        };
        self.curr_span.push_bytes(slice_subrange(run, 0, n));
        if self.deletion == Deletion::Backspace && run.len() == 1 && run[0] == 0x20 {
            assert(run@ =~= seq![0x20u8]);
            self.deletion = Deletion::BackspaceSpace;
        } else {
            self.deletion = Deletion::Idle;
        }
    }

    /// Replaces the character in column `x` of row `y`.
    fn set_row_char(&mut self, y: usize, x: usize, ch: char)
        requires
            old(self).wf(),
            y < old(self)@.lines.len(),
        ensures
            final(self)@ == (BufferModel {
                lines: old(self)@.lines.update(
                    y as int,
                    reshaped(
                        old(self)@.lines[y as int],
                        with_char(
                            cells_of(old(self)@.lines[y as int]),
                            x as int,
                            ch,
                        ),
                    ),
                ),
                ..old(self)@
            }),
            final(self).wf(),
    {
        match get_mut(&mut self.lines, y) {
            Some(line) => {
                let ghost before = line@;
                line.set_char(x, ch);
                proof {
                    lemma_same_shape_count(line@, before);
                }
            },
            None => {},
        }
        proof {
            assert(rows_of(self.lines@) =~= old(self)@.lines.update(
                y as int,
                reshaped(
                    old(self)@.lines[y as int],
                    with_char(
                        cells_of(old(self)@.lines[y as int]),
                        x as int,
                        ch,
                    ),
                ),
            ));
        }
    }

    /// Makes the cells of row `y` from column `from` up to `to` blank.
    fn blank_cells(&mut self, y: usize, from: usize, to: usize)
        requires
            old(self).wf(),
            y < old(self)@.lines.len(),
        ensures
            final(self)@ == (BufferModel {
                lines: blanked_row(old(self)@.lines, y as int, from as int, to as int),
                ..old(self)@
            }),
            final(self).wf(),
    {
        match get_mut(&mut self.lines, y) {
            Some(line) => {
                let ghost before = line@;
                line.blank_range(from, to);
                proof {
                    lemma_same_shape_count(line@, before);
                }
            },
            None => {},
        }
        proof {
            assert(rows_of(self.lines@) =~= blanked_row(
                old(self)@.lines,
                y as int,
                from as int,
                to as int,
            ));
        }
    }

    /// Leaves the rows from `from` up to but not including `to` without spans.
    fn clear_rows(&mut self, from: usize, to: usize)
        requires
            old(self).wf(),
        ensures
            final(self)@ == (BufferModel {
                lines: cleared_rows(old(self)@.lines, from as int, to as int),
                ..old(self)@
            }),
            final(self).wf(),
    {
        let len = self.lines.len();
        let end = if to < len {
            to
        } else {
            len
        };
        let mut i = from;
        proof {
            assert(rows_of(self.lines@) =~= cleared_rows(old(self)@.lines, from as int, from as int));
        }
        while i < end
            invariant
                from <= i,
                i <= end || i == from,
                end <= len,
                len == old(self)@.lines.len(),
                self.wf(),
                self@ == (BufferModel {
                    lines: cleared_rows(old(self)@.lines, from as int, i as int),
                    ..old(self)@
                }),
            decreases end - i,
        {
            let ghost before = self@;
            match get_mut(&mut self.lines, i) {
                Some(line) => {
                    line.reset();
                },
                None => {},
            }
            i = i + 1;
            proof {
                assert forall|k: int| 0 <= k < self@.lines.len() implies #[trigger] self@.lines[k]
                    == cleared_rows(old(self)@.lines, from as int, i as int)[k] by {
                    if k != i - 1 {
                        assert(self@.lines[k] == before.lines[k]);
                    }
                }
                assert(rows_of(self.lines@) =~= cleared_rows(
                    old(self)@.lines,
                    from as int,
                    i as int,
                ));
                assert forall|k: int| 0 <= k < self@.lines.len() implies cell_count(
                    #[trigger] self@.lines[k],
                ) <= self@.width() by {
                    if k != i - 1 {
                        assert(self@.lines[k] == before.lines[k]);
                    }
                }
            }
        }
        proof {
            assert(cleared_rows(old(self)@.lines, from as int, i as int) =~= cleared_rows(
                old(self)@.lines,
                from as int,
                to as int,
            ));
        }
    }

    /// Backspace.
    fn backspace(&mut self)
        requires
            old(self).wf(),
        ensures
            final(self)@ == old(self)@.backspace(),
            final(self).wf(),
    {
        if self.deletion == Deletion::BackspaceSpace {
            self.deletion = Deletion::Idle;
            self.set_row_char(self.cursor.y as usize, self.cursor.x as usize, ' ');
        } else {
            self.cursor.x = self.cursor.x.saturating_sub(1);
            self.deletion = Deletion::Backspace;
        }
    }

    /// Line feed.
    fn line_feed(&mut self)
        requires
            old(self).wf(),
        ensures
            final(self)@ == old(self)@.line_feed(),
            final(self).wf(),
    {
        let width = self.rect.width as usize;
        let cap = width - self.curr_line.num_cells();
        let mut row = Line::reserve_new(width);
        let mut span = Span::reserve_new(width, self.color_state.get_colors(), self.attrs);
        std::mem::swap(&mut self.curr_line, &mut row);
        std::mem::swap(&mut self.curr_span, &mut span);
        span.fill_to_width(cap);
        proof {
            lemma_push_span(row@, span@);
        }
        row.push(span);
        self.deletion = Deletion::Idle;
        self.push_line(row);
    }

    /// Form feed.
    fn form_feed(&mut self)
        requires
            old(self).wf(),
        ensures
            final(self)@ == old(self)@.form_feed(),
            final(self).wf(),
    {
        let h = self.rect.height as usize;
        self.push_blank_rows(h);
        let bottom = self.bottom();
        let down = self.view_start + h;
        self.view_start = if down < bottom {
            down
        } else {
            bottom
        };
        self.deletion = Deletion::Idle;
    }

    /// Clears the screen and keeps the scrollback: as many blank rows as
    /// the screen has go to the end of the scrollback, and the view moves down
    /// by the height of the screen, as far as the bottom.
    pub fn clear_screen(&mut self)
        requires
            old(self).wf(),
        ensures
            final(self)@ == old(self)@.clear_screen(),
            final(self).wf(),
    {
        self.form_feed();
        self.needs_render = true;
    }

    /// Tab.
    fn tab(&mut self)
        requires
            old(self).wf(),
        ensures
            final(self)@ == old(self)@.tab(),
            final(self).wf(),
    {
        let next: u32 = (self.cursor.x as u32 / 8 + 1) * 8;
        let last: u32 = (self.rect.width - 1) as u32;
        self.cursor.x = if next < last {
            next as u16
        } else {
            last as u16
        };
        self.deletion = Deletion::Idle;
    }

    /// A control byte.
    pub(crate) fn control(&mut self, b: u8)
        requires
            old(self).wf(),
        ensures
            final(self)@ == old(self)@.control(b),
            final(self).wf(),
    {
        if b == BS {
            self.backspace();
        } else if b == CR {
            self.cursor.x = 0;
            self.deletion = Deletion::Idle;
        } else if b == NL {
            self.line_feed();
        } else if b == FF {
            self.form_feed();
        } else if b == TAB {
            self.tab();
        } else {
            self.deletion = Deletion::Idle;
        }
    }

    /// A graphics sequence.
    fn graphics(&mut self, seq: &[u8])
        requires
            old(self).wf(),
            is_graphics(seq@),
        ensures
            final(self)@ == old(self)@.graphics(seq@),
            final(self).wf(),
    {
        let width = self.rect.width as usize;
        if !self.curr_span.is_empty() {
            let mut span = Span::reserve_new(0, self.defaults, self.attrs);
            std::mem::swap(&mut self.curr_span, &mut span);
            proof {
                lemma_push_span(self.curr_line@, span@);
            }
            self.curr_line.push(span);
        }
        process_colors(seq, &mut self.color_state, &mut self.attrs, self.defaults);
        self.curr_span = Span::reserve_new(width, self.color_state.get_colors(), self.attrs);
        self.deletion = Deletion::Idle;
    }

    /// The cursor to the start of the row `n` rows further down.
    fn next_line(&mut self, n: u16)
        requires
            old(self).wf(),
        ensures
            final(self)@ == old(self)@.next_line(n),
            final(self).wf(),
    {
        let target = self.cursor.y as usize + n as usize;
        if target < self.lines.len() {
            self.cursor = Position { x: 0, y: target as u16 };
        } else {
            self.push_blank_rows(target + 1 - self.lines.len());
            self.cursor = Position { x: 0, y: (self.lines.len() - 1) as u16 };
        }
    }

    /// Erases in the cursor's row.
    fn erase_line(&mut self, mode: EraseMode)
        requires
            old(self).wf(),
        ensures
            final(self)@ == old(self)@.erase_line(mode),
            final(self).wf(),
    {
        let y = self.cursor.y as usize;
        let x = self.cursor.x as usize;
        match mode {
            EraseMode::ToEnd => {
                self.blank_cells(y, x, self.rect.width as usize);
            },
            EraseMode::ToStart => {
                self.blank_cells(y, 0, x);
            },
            EraseMode::All => {
                self.clear_rows(y, y + 1);
            },
        }
    }

    /// Erases in the screen.
    fn erase_display(&mut self, mode: EraseMode)
        requires
            old(self).wf(),
        ensures
            final(self)@ == old(self)@.erase_display(mode),
            final(self).wf(),
    {
        let y = self.cursor.y as usize;
        let below = self.view_start + self.rect.height as usize;
        let view_end = if below < self.lines.len() {
            below
        } else {
            self.lines.len()
        };
        match mode {
            EraseMode::ToEnd => {
                self.erase_line(EraseMode::ToEnd);
                self.clear_rows(y + 1, view_end);
            },
            EraseMode::ToStart => {
                self.erase_line(EraseMode::ToStart);
                self.clear_rows(self.view_start, y);
            },
            EraseMode::All => {
                self.clear_rows(self.view_start, view_end);
            },
        }
    }

    /// A command for the cursor or the cells.
    pub fn command(&mut self, c: CsiCommand)
        requires
            old(self).wf(),
        ensures
            final(self)@ == old(self)@.command(c),
            final(self).wf(),
    {
        match c {
            CsiCommand::CursorUp(n) => {
                self.move_cursor_up(n);
            },
            CsiCommand::CursorDown(n) => {
                self.move_cursor_down(n);
            },
            CsiCommand::CursorRight(n) => {
                self.move_cursor_right(n);
            },
            CsiCommand::CursorLeft(n) => {
                self.move_cursor_left(n);
            },
            CsiCommand::NextLine(n) => {
                self.next_line(n);
            },
            CsiCommand::PreviousLine(n) => {
                self.cursor = Position { x: 0, y: self.cursor.y.saturating_sub(n) };
            },
            CsiCommand::Column(n) => {
                self.set_cursor_col(n);
            },
            CsiCommand::MoveTo { row, col } => {
                let x = col.saturating_sub(1);
                let y = self.view_start + row.saturating_sub(1) as usize;
                let last_x = self.rect.width - 1;
                let last_y = self.lines.len() - 1;
                self.cursor = Position {
                    x: if x < last_x {
                        x
                    } else {
                        last_x
                    },
                    y: if y < last_y {
                        y as u16
                    } else {
                        last_y as u16
                    },
                };
            },
            CsiCommand::EraseDisplay(mode) => {
                self.erase_display(mode);
            },
            CsiCommand::EraseLine(mode) => {
                self.erase_line(mode);
            },
            CsiCommand::Unknown => {},
        }
    }

    /// An escape sequence.
    pub(crate) fn escape(&mut self, seq: &[u8])
        requires
            old(self).wf(),
        ensures
            final(self)@ == old(self)@.escape(seq@),
            final(self).wf(),
    {
        if is_graphics_seq(seq) {
            self.graphics(seq);
        } else {
            let c = parse_csi(seq);
            self.command(c);
            self.deletion = Deletion::Idle;
        }
    }

    /// One event of the parser.
    pub fn process_event(&mut self, event: &ParserEvent)
        requires
            old(self).wf(),
        ensures
            final(self)@ == old(self)@.event(event@),
            final(self).wf(),
    {
        match event {
            ParserEvent::Text(run) => {
                self.text(run.as_slice());
            },
            ParserEvent::Control(b) => {
                self.control(*b);
            },
            ParserEvent::EscapeSequence(seq) => {
                self.escape(seq.as_slice());
            },
        }
    }

    /// The events of the parser, first to last.
    pub fn process_events(&mut self, events: Vec<ParserEvent>)
        requires
            old(self).wf(),
        ensures
            final(self)@ == old(self)@.events(event_views(events@)),
            final(self).wf(),
    {
        let mut i: usize = 0;
        let ghost all = event_views(events@);
        while i < events.len()
            invariant
                i <= events@.len(),
                all == event_views(events@),
                self.wf(),
                self@ == old(self)@.events(all.take(i as int)),
            decreases events@.len() - i,
        {
            proof {
                assert(all.take(i + 1).drop_last() =~= all.take(i as int));
            }
            self.process_event(&events[i]);
            i = i + 1;
        }
        proof {
            assert(all.take(i as int) =~= all);
        }
    }

    /// Takes a batch of bytes from the device: text becomes cells, control
    /// bytes and escape sequences act on cursor, style and cells. Afterwards
    /// the view is at the bottom of the scrollback and the buffer wants a
    /// render.
    pub fn add_data(&mut self, data: &[u8])
        requires
            old(self).wf(),
        ensures
            final(self)@ == old(self)@.add_data(data@),
            final(self).wf(),
    {
        let events = self.parser.feed(data);
        self.process_events(events);
        self.view_start = self.bottom();
        self.needs_render = true;
    }
}

impl Cursor for ScreenBuffer {
    open spec fn valid(&self) -> bool {
        self.wf()
    }

    /// Puts the cursor at what `position` converts into, or at the last
    /// column or line where that is beyond it.
    fn set_cursor_pos<P: Into<Position>>(&mut self, position: P)
        ensures
            P::obeys_into_spec() ==> final(self)@ == old(self)@.with_cursor(
                least(position.into_spec().x as int, old(self)@.width() - 1),
                least(position.into_spec().y as int, old(self)@.lines.len() - 1),
            ),
    {
        let position: Position = position.into();
        let last_x = self.rect.width - 1;
        let last_y = (self.lines.len() - 1) as u16;
        self.cursor = Position {
            x: if position.x < last_x {
                position.x
            } else {
                last_x
            },
            y: if position.y < last_y {
                position.y
            } else {
                last_y
            },
        };
    }

    /// Moves the cursor left by `cells` columns, as far as the first column.
    fn move_cursor_left(&mut self, cells: u16)
        ensures
            final(self)@ == old(self)@.command(CsiCommand::CursorLeft(cells)),
    {
        self.cursor.x = self.cursor.x.saturating_sub(cells);
    }

    /// Moves the cursor up by `lines` rows, as far as the first line.
    fn move_cursor_up(&mut self, lines: u16)
        ensures
            final(self)@ == old(self)@.command(CsiCommand::CursorUp(lines)),
    {
        self.cursor.y = self.cursor.y.saturating_sub(lines);
    }

    /// Moves the cursor down by `lines` rows, as far as the last line.
    fn move_cursor_down(&mut self, lines: u16)
        ensures
            final(self)@ == old(self)@.command(CsiCommand::CursorDown(lines)),
    {
        let down = self.cursor.y as usize + lines as usize;
        let last = self.lines.len() - 1;
        self.cursor.y = if down < last {
            down as u16
        } else {
            last as u16
        };
    }

    /// Moves the cursor right by `cells` columns, as far as the last column.
    fn move_cursor_right(&mut self, cells: u16)
        ensures
            final(self)@ == old(self)@.command(CsiCommand::CursorRight(cells)),
    {
        let right = self.cursor.x as u32 + cells as u32;
        let last = (self.rect.width - 1) as u32;
        self.cursor.x = if right < last {
            right as u16
        } else {
            last as u16
        };
    }

    /// Puts the cursor in column `col`, or in the last column where `col` is
    /// beyond it.
    fn set_cursor_col(&mut self, col: u16)
        ensures
            final(self)@ == old(self)@.command(CsiCommand::Column(col)),
    {
        let last = self.rect.width - 1;
        self.cursor.x = if col < last {
            col
        } else {
            last
        };
    }
}

} // verus!
