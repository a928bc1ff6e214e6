//! Rendering: when a frame is due, and what is written to the host terminal
//! to draw one.

use vstd::prelude::*;
use crate::cell::Cell;
use crate::line::{cell_count, lemma_span_start, Line};
use crate::model::{minus, BufferModel, MIN_RENDER_INTERVAL};
use crate::screen_buffer::ScreenBuffer;
use crate::sgr::Style;
use crate::span::SpanView;
use crate::style::{Attribute, Attributes, Colors};

verus! {

/// One instruction for the host terminal.
#[derive(Debug, Clone, Copy, PartialEq, Eq, Structural)]
pub enum RenderOp {
    /// Hide the host cursor.
    HideCursor,
    /// Move the host cursor to this column and row of the screen.
    MoveTo(u16, u16),
    /// Use these colors for what is printed next.
    SetColors(Colors),
    /// Drop every attribute and color in use, then use exactly these
    /// attributes for what is printed next.
    SetAttributes(Attributes),
    /// Print one character.
    Print(char),
    /// Show the host cursor.
    ShowCursor,
    /// Write everything out.
    Flush,
}

/// A character with the style it is shown in.
pub struct StyledCell {
    pub character: char,
    pub style: Style,
}

/// The style that a cell of `span` is shown in. A selected cell looks like
/// an unselected one with foreground and background exchanged, and the
/// attribute `Reverse` exchanges them as well, so the colors are exchanged
/// where exactly one of the two holds. `Reverse` itself is not passed on.
pub open spec fn shown(span: SpanView, cell: Cell) -> StyledCell {
    StyledCell {
        character: cell.character,
        style: Style {
            colors: if cell.is_selected != span.attrs@.contains(Attribute::Reverse) {
                span.colors.swapped()
            } else {
                span.colors
            },
            attrs: span.attrs.minus(Attribute::Reverse),
        },
    }
}

/// The cells of `span` as they are shown.
pub open spec fn shown_span(span: SpanView) -> Seq<StyledCell> {
    Seq::new(span.cells.len(), |j: int| shown(span, span.cells[j]))
}

/// The cells of a row as they are shown, left to right.
pub open spec fn shown_cells(spans: Seq<SpanView>) -> Seq<StyledCell>
    decreases spans.len(),
{
    if spans.len() == 0 {
        Seq::empty()
    } else {
        shown_cells(spans.drop_last()) + shown_span(spans.last())
    }
}

/// A space in the configured colors with no attribute.
pub open spec fn filler(defaults: Colors) -> StyledCell {
    StyledCell { character: ' ', style: Style { colors: defaults, attrs: Attributes::empty() } }
}

/// `n` fillers.
pub open spec fn fillers(n: nat, defaults: Colors) -> Seq<StyledCell> {
    Seq::new(n, |j: int| filler(defaults))
}

/// What is written to change from the style `issued`, written last, to
/// `style`: nothing where they are the same, the colors where only they
/// differ, and the attributes followed by the colors where the attributes
/// differ or no style was written yet.
pub open spec fn style_ops(issued: Option<Style>, style: Style) -> Seq<RenderOp> {
    if issued is None || issued->0.attrs != style.attrs {
        seq![RenderOp::SetAttributes(style.attrs), RenderOp::SetColors(style.colors)]
    } else if issued->0.colors != style.colors {
        seq![RenderOp::SetColors(style.colors)]
    } else {
        Seq::<RenderOp>::empty()
    }
}

/// What is written for one cell when `issued` is the style written last: the
/// change of style, if there is one, then the character.
pub open spec fn cell_ops(issued: Option<Style>, cell: StyledCell) -> Seq<RenderOp> {
    style_ops(issued, cell.style).push(RenderOp::Print(cell.character))
}

/// The style written last after `cells`, when it was `issued` before them.
pub open spec fn issued_after(issued: Option<Style>, cells: Seq<StyledCell>) -> Option<Style> {
    if cells.len() == 0 {
        issued
    } else {
        Some(cells.last().style)
    }
}

/// What is written for `cells`, left to right, when `issued` is the style
/// written last before them.
pub open spec fn cells_ops(issued: Option<Style>, cells: Seq<StyledCell>) -> Seq<RenderOp>
    decreases cells.len(),
{
    if cells.len() == 0 {
        Seq::empty()
    } else {
        cells_ops(issued, cells.drop_last()) + cell_ops(
            issued_after(issued, cells.drop_last()),
            cells.last(),
        )
    }
}

impl BufferModel {
    /// The cells of row `sy` of the screen as they are shown: those of the
    /// line under it, then fillers up to the width of the screen; fillers
    /// alone where the scrollback has no line there.
    pub open spec fn screen_row(self, sy: int) -> Seq<StyledCell> {
        let y = self.view_start + sy;
        if 0 <= y < self.lines.len() {
            shown_cells(self.lines[y]) + fillers(
                minus(self.width() as int, cell_count(self.lines[y]) as int),
                self.defaults,
            )
        } else {
            fillers(self.width(), self.defaults)
        }
    }

    /// The style written last before row `sy` of the screen.
    pub open spec fn issued_before(self, sy: int) -> Option<Style>
        decreases sy,
    {
        if sy <= 0 {
            None
        } else {
            issued_after(self.issued_before(sy - 1), self.screen_row(sy - 1))
        }
    }

    /// What is written for the rows of the screen above row `upto`: for each
    /// the move to its first column, then its cells.
    pub open spec fn rows_ops(self, upto: int) -> Seq<RenderOp>
        decreases upto,
    {
        if upto <= 0 {
            Seq::empty()
        } else {
            self.rows_ops(upto - 1) + seq![RenderOp::MoveTo(0, (upto - 1) as u16)] + cells_ops(
                self.issued_before(upto - 1),
                self.screen_row(upto - 1),
            )
        }
    }

    /// The row of the screen that the host cursor is left on: the cursor's,
    /// or the last row where the cursor's line is not on the screen.
    pub open spec fn cursor_row(self) -> int {
        if self.view_start <= self.cursor.y < self.view_start + self.height() {
            self.cursor.y - self.view_start
        } else {
            self.height() - 1
        }
    }

    /// What is written to draw the screen: the host cursor is hidden, every
    /// row is drawn, the host cursor is put where the cursor is and shown,
    /// and everything is written out.
    pub open spec fn frame(self) -> Seq<RenderOp> {
        seq![RenderOp::HideCursor] + self.rows_ops(self.height() as int) + seq![
            RenderOp::MoveTo(self.cursor.x, self.cursor_row() as u16),
            RenderOp::ShowCursor,
            RenderOp::Flush,
        ]
    }

    /// What a render writes: a frame where something changed, nothing otherwise.
    pub open spec fn render_ops(self) -> Seq<RenderOp> {
        if self.needs_render {
            self.frame()
        } else {
            Seq::empty()
        }
    }

    /// The buffer after a render at the time `now`.
    pub open spec fn rendered(self, now: u64) -> BufferModel {
        if self.needs_render {
            BufferModel { last_render: Some(now), needs_render: false, ..self }
        } else {
            self
        }
    }
}

/// What is written for cells with one more cell is what is written for the
/// cells, then what is written for that cell.
pub proof fn lemma_cells_ops_push(issued: Option<Style>, cells: Seq<StyledCell>, cell: StyledCell)
    ensures
        cells_ops(issued, cells.push(cell)) == cells_ops(issued, cells) + cell_ops(
            issued_after(issued, cells),
            cell,
        ),
        issued_after(issued, cells.push(cell)) == Some(cell.style),
{
    assert(cells.push(cell).drop_last() =~= cells);
}

/// Writes one cell.
fn emit(ops: &mut Vec<RenderOp>, issued: &mut Option<Style>, character: char, style: Style)
    ensures
        final(ops)@ == old(ops)@ + cell_ops(*old(issued), (StyledCell { character, style })),
        *final(issued) == Some(style),
{
    let (colors_differ, attrs_differ) = match *issued {
        Some(last) => (last.colors != style.colors, last.attrs != style.attrs),
        None => (true, true),
    };
    if attrs_differ {
        ops.push(RenderOp::SetAttributes(style.attrs));
        ops.push(RenderOp::SetColors(style.colors));
    } else if colors_differ {
        ops.push(RenderOp::SetColors(style.colors));
    }
    ops.push(RenderOp::Print(character));
    *issued = Some(style);
}

/// Writes the cells of a row of the scrollback, then fillers up to `width`.
fn emit_line(
    ops: &mut Vec<RenderOp>,
    issued: &mut Option<Style>,
    line: &Line,
    width: usize,
    defaults: Colors,
)
    requires
        cell_count(line@) <= width,
    ensures
        final(ops)@ == old(ops)@ + cells_ops(
            *old(issued),
            shown_cells(line@) + fillers((width - cell_count(line@)) as nat, defaults),
        ),
        *final(issued) == issued_after(
            *old(issued),
            shown_cells(line@) + fillers((width - cell_count(line@)) as nat, defaults),
        ),
{
    let ghost mut done: Seq<StyledCell> = Seq::empty();
    let mut i: usize = 0;
    let mut count: usize = 0;
    while i < line.len()
        invariant
            i <= line@.len(),
            cell_count(line@) <= width,
            count == cell_count(line@.take(i as int)),
            done == shown_cells(line@.take(i as int)),
            ops@ == old(ops)@ + cells_ops(*old(issued), done),
            *issued == issued_after(*old(issued), done),
        decreases line@.len() - i,
    {
        match line.get_span(i) {
            Some(span) => {
                let cells = span.cells();
                let reverse = span.attrs().has(Attribute::Reverse);
                let attrs = span.attrs().without(Attribute::Reverse);
                let colors = span.colors();
                let ghost before = done;
                let mut j: usize = 0;
                while j < cells.len()
                    invariant
                        j <= cells@.len(),
                        cells@ == span@.cells,
                        reverse == span@.attrs@.contains(Attribute::Reverse),
                        attrs == span@.attrs.minus(Attribute::Reverse),
                        colors == span@.colors,
                        done == before + shown_span(span@).take(j as int),
                        ops@ == old(ops)@ + cells_ops(*old(issued), done),
                        *issued == issued_after(*old(issued), done),
                    decreases cells@.len() - j,
                {
                    let cell = cells[j];
                    let shown_colors = if cell.is_selected != reverse {
                        colors.swap()
                    } else {
                        colors
                    };
                    let style = Style { colors: shown_colors, attrs };
                    proof {
                        lemma_cells_ops_push(
                            *old(issued),
                            done,
                            StyledCell { character: cell.character, style },
                        );
                    }
                    emit(ops, issued, cell.character, style);
                    proof {
                        done = done.push(StyledCell { character: cell.character, style });
                    }
                    j = j + 1;
                }
                proof {
                    assert(line@.take(i + 1).drop_last() =~= line@.take(i as int));
                    lemma_span_start(line@, i as int);
                }
                count = count + cells.len();
            },
            None => {},
        }
        i = i + 1;
    }
    proof {
        assert(line@.take(i as int) =~= line@);
    }
    let ghost shown_part = done;
    let fill = Style { colors: defaults, attrs: Attributes::none() };
    let mut k: usize = count;
    while k < width
        invariant
            count <= k <= width,
            fill == filler(defaults).style,
            shown_part == shown_cells(line@),
            count == cell_count(line@),
            done == shown_part + fillers((k - count) as nat, defaults),
            ops@ == old(ops)@ + cells_ops(*old(issued), done),
            *issued == issued_after(*old(issued), done),
        decreases width - k,
    {
        proof {
            lemma_cells_ops_push(*old(issued), done, filler(defaults));
        }
        emit(ops, issued, ' ', fill);
        k = k + 1;
        proof {
            done = done.push(filler(defaults));
        }
    }
}

/// Writes `width` fillers.
fn emit_fillers(ops: &mut Vec<RenderOp>, issued: &mut Option<Style>, width: usize, defaults: Colors)
    ensures
        final(ops)@ == old(ops)@ + cells_ops(*old(issued), fillers(width as nat, defaults)),
        *final(issued) == issued_after(*old(issued), fillers(width as nat, defaults)),
{
    let ghost mut done: Seq<StyledCell> = Seq::empty();
    let fill = Style { colors: defaults, attrs: Attributes::none() };
    let mut k: usize = 0;
    while k < width
        invariant
            k <= width,
            fill == filler(defaults).style,
            done == fillers(k as nat, defaults),
            ops@ == old(ops)@ + cells_ops(*old(issued), done),
            *issued == issued_after(*old(issued), done),
        decreases width - k,
    {
        proof {
            lemma_cells_ops_push(*old(issued), done, filler(defaults));
        }
        emit(ops, issued, ' ', fill);
        k = k + 1;
        proof {
            done = done.push(filler(defaults));
        }
    }
}

impl ScreenBuffer {
    /// Tells whether a render is due at the time `now`, in milliseconds:
    /// something changed, and either nothing was rendered yet or the last
    /// render was at least [`MIN_RENDER_INTERVAL`] ago.
    pub fn should_render_now(&self, now: u64) -> (r: bool)
        ensures
            r == self@.render_due(now),
    {
        if !self.needs_render {
            return false;
        }
        match self.last_render {
            Some(last) => now >= last && now - last >= MIN_RENDER_INTERVAL,
            None => true,
        }
    }

    /// What is written to draw the screen as it is.
    pub fn frame(&self) -> (ops: Vec<RenderOp>)
        requires
            self.wf(),
        ensures
            ops@ == self@.frame(),
    {
        let mut ops: Vec<RenderOp> = Vec::new();
        let mut issued: Option<Style> = None;
        ops.push(RenderOp::HideCursor);
        let height = self.rect.height;
        let width = self.rect.width as usize;
        let mut sy: u16 = 0;
        while sy < height
            invariant
                sy <= height,
                height == self@.height(),
                width == self@.width(),
                self.wf(),
                issued == self@.issued_before(sy as int),
                ops@ == seq![RenderOp::HideCursor] + self@.rows_ops(sy as int),
            decreases height - sy,
        {
            ops.push(RenderOp::MoveTo(0, sy));
            let y = self.view_start + sy as usize;
            if y < self.lines.len() {
                assert(cell_count(self@.lines[y as int]) <= self@.width());
                emit_line(&mut ops, &mut issued, &self.lines[y], width, self.defaults);
            } else {
                emit_fillers(&mut ops, &mut issued, width, self.defaults);
            }
            sy = sy + 1;
        }
        let y = self.cursor.y as usize;
        let row = if self.view_start <= y && y < self.view_start + height as usize {
            (y - self.view_start) as u16
        } else {
            height - 1
        };
        ops.push(RenderOp::MoveTo(self.cursor.x, row));
        ops.push(RenderOp::ShowCursor);
        ops.push(RenderOp::Flush);
        ops
    }

    /// Renders at the time `now`, in milliseconds: gives what is to be
    /// written to the host terminal, and notes that the screen is drawn.
    /// Nothing is written where nothing changed since the last render.
    pub fn render(&mut self, now: u64) -> (ops: Vec<RenderOp>)
        requires
            old(self).wf(),
        ensures
            ops@ == old(self)@.render_ops(),
            final(self)@ == old(self)@.rendered(now),
            final(self).wf(),
    {
        if !self.needs_render {
            return Vec::new();
        }
        let ops = self.frame();
        self.last_render = Some(now);
        self.needs_render = false;
        ops
    }
}

} // verus!
