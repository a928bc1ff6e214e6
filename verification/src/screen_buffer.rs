//! The screen buffer: a bounded scrollback of styled rows with a cursor, a
//! view and a selection.

use vstd::prelude::*;
use std::collections::VecDeque;
use crate::color_state::ColorState;
use crate::line::{blank_line, cell_count, Line};
use crate::model::{BufferModel, Deletion, MAX_SCROLLBACK};
use crate::parser::ByteParser;
use crate::position::Position;
use crate::rect::Rect;
use crate::sgr::Style;
use crate::span::{Span, SpanView};
use crate::style::{Attributes, Colors};

verus! {

/// The rendering state of a session: every line received and still kept, and
/// what is needed to scroll, select and draw.
#[derive(Debug)]
pub struct ScreenBuffer {
    pub(crate) lines: VecDeque<Line>,
    pub(crate) view_start: usize,
    pub(crate) rect: Rect,
    pub(crate) cursor: Position,
    pub(crate) selection_start: Option<(u16, usize)>,
    pub(crate) selection_end: Option<(u16, usize)>,
    pub(crate) max_scrollback: usize,
    pub(crate) last_render: Option<u64>,
    pub(crate) needs_render: bool,
    pub(crate) parser: ByteParser,
    pub(crate) color_state: ColorState,
    pub(crate) attrs: Attributes,
    pub(crate) defaults: Colors,
    pub(crate) curr_line: Line,
    pub(crate) curr_span: Span,
    pub(crate) deletion: Deletion,
}

/// The rows of `lines` as values.
pub open spec fn rows_of(lines: Seq<Line>) -> Seq<Seq<SpanView>> {
    Seq::new(lines.len(), |i: int| lines[i]@)
}

impl View for ScreenBuffer {
    type V = BufferModel;

    open(crate) spec fn view(&self) -> BufferModel {
        BufferModel {
            rect: self.rect,
            lines: rows_of(self.lines@),
            view_start: self.view_start as nat,
            cursor: self.cursor,
            selection_start: self.selection_start,
            selection_end: self.selection_end,
            max_scrollback: self.max_scrollback as nat,
            last_render: self.last_render,
            needs_render: self.needs_render,
            parser: self.parser@,
            style: Style { colors: self.color_state@, attrs: self.attrs },
            defaults: self.defaults,
            line: self.curr_line@,
            span: self.curr_span@,
            deletion: self.deletion,
        }
    }
}

/// A row of one blank span is as wide as the span.
pub proof fn lemma_blank_line_count(width: nat, colors: Colors)
    ensures
        cell_count(blank_line(width, colors)) == width,
{
    let row = blank_line(width, colors);
    assert(cell_count(row.drop_last()) == 0);
}

impl ScreenBuffer {
    /// Whether the buffer is in a state that its operations keep: see
    /// [`BufferModel::wf`].
    pub open spec fn wf(&self) -> bool {
        self@.wf()
    }

    /// A buffer for a screen of the size of `rect`, with the configured
    /// colors `defaults`, that keeps up to [`MAX_SCROLLBACK`] lines.
    pub fn new(rect: Rect, defaults: Colors) -> (b: ScreenBuffer)
        requires
            rect.width >= 1,
            rect.height >= 1,
        ensures
            b@ == BufferModel::initial(rect, defaults, MAX_SCROLLBACK as nat),
            b.wf(),
    {
        ScreenBuffer::with_max_scrollback(rect, defaults, MAX_SCROLLBACK)
    }

    /// A buffer for a screen of the size of `rect`, with the configured
    /// colors `defaults`, that keeps up to `max_scrollback` lines.
    pub fn with_max_scrollback(rect: Rect, defaults: Colors, max_scrollback: usize) -> (b:
        ScreenBuffer)
        requires
            rect.width >= 1,
            rect.height >= 1,
            1 <= max_scrollback <= u16::MAX,
        ensures
            b@ == BufferModel::initial(rect, defaults, max_scrollback as nat),
            b.wf(),
    {
        let mut lines: VecDeque<Line> = VecDeque::new();
        lines.push_back(Line::new_empty(rect.width as usize, defaults));
        let b = ScreenBuffer {
            lines,
            view_start: 0,
            rect,
            cursor: Position::origin(),
            selection_start: None,
            selection_end: None,
            max_scrollback,
            last_render: None,
            needs_render: false,
            parser: ByteParser::new(),
            color_state: ColorState::new(defaults),
            attrs: Attributes::none(),
            defaults,
            curr_line: Line::reserve_new(rect.width as usize),
            curr_span: Span::reserve_new(rect.width as usize, defaults, Attributes::none()),
            deletion: Deletion::Idle,
        };
        proof {
            lemma_blank_line_count(rect.width as nat, defaults);
            assert(b@.lines =~= seq![blank_line(rect.width as nat, defaults)]);
        }
        b
    }

    /// The size and place of the screen.
    pub fn rect(&self) -> (r: Rect)
        ensures
            r == self@.rect,
    {
        self.rect
    }

    /// The number of lines in the scrollback.
    pub fn len(&self) -> (n: usize)
        ensures
            n == self@.lines.len(),
    {
        self.lines.len()
    }

    /// The line at `idx` of the scrollback, if there is one.
    pub fn line(&self, idx: usize) -> (l: Option<&Line>)
        ensures
            idx < self@.lines.len() ==> l is Some && l->0@ == self@.lines[idx as int],
            idx >= self@.lines.len() ==> l is None,
    {
        if idx < self.lines.len() {
            Some(&self.lines[idx])
        } else {
            None
        }
    }

    /// The line of the scrollback at the top of the screen.
    pub fn view_start(&self) -> (v: usize)
        ensures
            v == self@.view_start,
    {
        self.view_start
    }

    /// The cursor: a column and a line of the scrollback.
    pub fn cursor(&self) -> (p: Position)
        ensures
            p == self@.cursor,
    {
        self.cursor
    }

    /// The two ends of the selection, as far as they are set.
    pub fn selection(&self) -> (s: (Option<(u16, usize)>, Option<(u16, usize)>))
        ensures
            s.0 == self@.selection_start,
            s.1 == self@.selection_end,
    {
        (self.selection_start, self.selection_end)
    }

    /// How many lines the scrollback may hold.
    pub fn max_scrollback(&self) -> (n: usize)
        ensures
            n == self@.max_scrollback,
    {
        self.max_scrollback
    }

    /// Whether something changed since the last render.
    pub fn needs_render(&self) -> (r: bool)
        ensures
            r == self@.needs_render,
    {
        self.needs_render
    }

    /// The colors and attributes in force.
    pub fn style(&self) -> (s: Style)
        ensures
            s == self@.style,
    {
        Style { colors: self.color_state.get_colors(), attrs: self.attrs }
    }

    /// The row under construction: the spans that are closed.
    pub fn pending_line(&self) -> (l: &Line)
        ensures
            l@ == self@.line,
    {
        &self.curr_line
    }

    /// The span under construction.
    pub fn pending_span(&self) -> (s: &Span)
        ensures
            s@ == self@.span,
    {
        &self.curr_span
    }

    /// The top line that shows the end of the scrollback.
    pub(crate) fn bottom(&self) -> (v: usize)
        ensures
            v == self@.bottom(),
    {
        let h = self.rect.height as usize;
        if self.lines.len() > h {
            self.lines.len() - h
        } else {
            0
        }
    }

    /// Appends `row` to the scrollback and keeps the scrollback within its bound.
    pub(crate) fn push_line(&mut self, row: Line)
        requires
            old(self).wf(),
            cell_count(row@) <= old(self)@.width(),
        ensures
            final(self)@ == old(self)@.push_line(row@),
            final(self).wf(),
    {
        self.lines.push_back(row);
        if self.lines.len() > self.max_scrollback {
            self.lines.pop_front();
            if self.cursor.y > 0 {
                self.cursor.y = self.cursor.y - 1;
            }
            if self.view_start > 0 {
                self.view_start = self.view_start - 1;
            }
            assert(rows_of(self.lines@) =~= old(self)@.lines.push(row@).skip(1));
        } else {
            assert(rows_of(self.lines@) =~= old(self)@.lines.push(row@));
        }
    }

    /// Appends `n` blank rows to the scrollback.
    pub(crate) fn push_blank_rows(&mut self, n: usize)
        requires
            old(self).wf(),
        ensures
            final(self)@ == old(self)@.push_blank_rows(n as nat),
            final(self).wf(),
    {
        let mut i: usize = 0;
        while i < n
            invariant
                i <= n,
                self.wf(),
                self@ == old(self)@.push_blank_rows(i as nat),
            decreases n - i,
        {
            proof {
                lemma_blank_line_count(self@.width(), self@.defaults);
            }
            self.push_line(Line::new_empty(self.rect.width as usize, self.defaults));
            i = i + 1;
        }
    }
}

} // verus!
