//! The commands of the user interface: scrolling, selecting, copying and
//! clearing.

use vstd::prelude::*;
use vstd::string::*;
use crate::deque::get_mut;
use crate::line::{
    cell_count, cells_of, deselected, lemma_cells_len, lemma_reshaped, lemma_same_shape_count, lemma_same_shape_reshaped, reshaped, selected, Line,
};
use crate::model::{
    end_column, first_column, highlighted, row_text, rows_text, unselected, Anchor,
    BufferModel,
};
use crate::position::Position;
use crate::screen_buffer::{lemma_blank_line_count, ScreenBuffer};
use crate::span::SpanView;
use crate::text::{push_char, trim_end};
use crate::cell::characters;

verus! {

/// What the keyboard and the mouse ask of the screen buffer.
#[non_exhaustive]
#[derive(Clone, Copy, Debug, PartialEq, Eq)]
pub enum UICommand {
    /// Scroll up by so many lines.
    ScrollUp(usize),
    /// Scroll down by so many lines.
    ScrollDown(usize),
    /// Scroll to the newest line.
    ScrollBottom,
    /// Scroll to the oldest line.
    ScrollTop,
    /// Start a selection at a position of the screen.
    StartSelection(Position),
    /// Extend the selection to a position of the screen.
    UpdateSelection(Position),
    /// Copy the selected text and drop the selection.
    CopySelection,
    /// Drop the scrollback.
    ClearBuffer,
}

/// Rows from `upto` on that lie beyond the scrollback or before the
/// selection add nothing to its text.
pub proof fn lemma_rows_beyond(
    lines: Seq<Seq<SpanView>>,
    width: int,
    s: Anchor,
    e: Anchor,
    from: int,
    upto: int,
)
    requires
        lines.len() <= from <= upto,
    ensures
        rows_text(lines, width, s, e, upto) == rows_text(lines, width, s, e, from),
    decreases upto - from,
{
    if upto > from {
        lemma_rows_beyond(lines, width, s, e, from, upto - 1);
    }
}

impl ScreenBuffer {
    /// Marks every cell of every row as not selected.
    fn deselect_rows(&mut self)
        requires
            old(self).wf(),
        ensures
            final(self)@ == (BufferModel { lines: unselected(old(self)@.lines), ..old(self)@ }),
            final(self).wf(),
    {
        let len = self.lines.len();
        let mut i: usize = 0;
        while i < len
            invariant
                i <= len,
                len == old(self)@.lines.len(),
                self.wf(),
                self@ == (BufferModel { lines: self@.lines, ..old(self)@ }),
                self@.lines.len() == len,
                forall|k: int|
                    0 <= k < i ==> #[trigger] self@.lines[k] == reshaped(
                        old(self)@.lines[k],
                        deselected(cells_of(old(self)@.lines[k])),
                    ),
                forall|k: int| i <= k < len ==> #[trigger] self@.lines[k] == old(self)@.lines[k],
            decreases len - i,
        {
            let ghost before = self@;
            assert(cell_count(self@.lines[i as int]) <= self@.width());
            match get_mut(&mut self.lines, i) {
                Some(line) => {
                    let ghost row = line@;
                    line.clear_selection();
                    proof {
                        lemma_same_shape_count(line@, row);
                    }
                },
                None => {},
            }
            proof {
                assert forall|k: int| 0 <= k < i + 1 implies #[trigger] self@.lines[k] == reshaped(
                    old(self)@.lines[k],
                    deselected(cells_of(old(self)@.lines[k])),
                ) by {
                    if k < i {
                        assert(self@.lines[k] == before.lines[k]);
                    }
                }
                assert forall|k: int| i + 1 <= k < len implies #[trigger] self@.lines[k] == old(
                    self,
                )@.lines[k] by {
                    assert(self@.lines[k] == before.lines[k]);
                }
                assert forall|k: int| 0 <= k < self@.lines.len() implies cell_count(
                    #[trigger] self@.lines[k],
                ) <= self@.width() by {
                    if k != i {
                        assert(self@.lines[k] == before.lines[k]);
                    }
                }
            }
            i = i + 1;
        }
        proof {
            assert(self@.lines =~= unselected(old(self)@.lines));
        }
    }

    /// Marks the cells between the two ends `s` and `e`, in this order, as selected.
    fn select_rows(&mut self, s: Anchor, e: Anchor)
        requires
            old(self).wf(),
        ensures
            final(self)@ == (BufferModel { lines: final(self)@.lines, ..old(self)@ }),
            final(self)@.lines.len() == old(self)@.lines.len(),
            forall|k: int|
                0 <= k < old(self)@.lines.len() ==> #[trigger] final(self)@.lines[k] == (if s.1 <= k
                    <= e.1 {
                    reshaped(
                        old(self)@.lines[k],
                        selected(
                            cells_of(old(self)@.lines[k]),
                            first_column(k, s),
                            end_column(k, e, old(self)@.width() as int),
                        ),
                    )
                } else {
                    old(self)@.lines[k]
                }),
            final(self).wf(),
    {
        let len = self.lines.len();
        let width = self.rect.width as usize;
        let mut i: usize = s.1;
        while i < len && i <= e.1
            invariant
                s.1 <= i,
                len == old(self)@.lines.len(),
                width == old(self)@.width(),
                self.wf(),
                self@ == (BufferModel { lines: self@.lines, ..old(self)@ }),
                self@.lines.len() == len,
                forall|k: int|
                    0 <= k < len && k < i ==> #[trigger] self@.lines[k] == (if s.1 <= k <= e.1 {
                        reshaped(
                            old(self)@.lines[k],
                            selected(
                                cells_of(old(self)@.lines[k]),
                                first_column(k, s),
                                end_column(k, e, width as int),
                            ),
                        )
                    } else {
                        old(self)@.lines[k]
                    }),
                forall|k: int| i <= k < len ==> #[trigger] self@.lines[k] == old(self)@.lines[k],
            decreases len - i,
        {
            let ghost before = self@;
            let from = if i == s.1 {
                s.0 as usize
            } else {
                0
            };
            let to = if i == e.1 {
                let last = width - 1;
                if (e.0 as usize) < last {
                    e.0 as usize + 1
                } else {
                    last + 1
                }
            } else {
                width
            };
            assert(cell_count(self@.lines[i as int]) <= self@.width());
            match get_mut(&mut self.lines, i) {
                Some(line) => {
                    let ghost row = line@;
                    line.select_range(from, to);
                    proof {
                        lemma_same_shape_count(line@, row);
                    }
                },
                None => {},
            }
            proof {
                assert forall|k: int| 0 <= k < len && k < i + 1 implies #[trigger] self@.lines[k]
                    == (if s.1 <= k <= e.1 {
                    reshaped(
                        old(self)@.lines[k],
                        selected(
                            cells_of(old(self)@.lines[k]),
                            first_column(k, s),
                            end_column(k, e, width as int),
                        ),
                    )
                } else {
                    old(self)@.lines[k]
                }) by {
                    if k < i {
                        assert(self@.lines[k] == before.lines[k]);
                    }
                }
                assert forall|k: int| i + 1 <= k < len implies #[trigger] self@.lines[k] == old(
                    self,
                )@.lines[k] by {
                    assert(self@.lines[k] == before.lines[k]);
                }
                assert forall|k: int| 0 <= k < self@.lines.len() implies cell_count(
                    #[trigger] self@.lines[k],
                ) <= self@.width() by {
                    if k != i {
                        assert(self@.lines[k] == before.lines[k]);
                    }
                }
            }
            i = i + 1;
        }
    }

    /// Marks exactly the cells between the two ends of the selection as selected.
    fn highlight(&mut self, a: Anchor, b: Anchor)
        requires
            old(self).wf(),
        ensures
            final(self)@ == (BufferModel {
                lines: highlighted(old(self)@.lines, old(self)@.width() as int, a, b),
                ..old(self)@
            }),
            final(self).wf(),
    {
        let (s, e) = if a.1 < b.1 || (a.1 == b.1 && a.0 <= b.0) {
            (a, b)
        } else {
            (b, a)
        };
        self.deselect_rows();
        let ghost mid = self@;
        self.select_rows(s, e);
        proof {
            let width = old(self)@.width() as int;
            let want = highlighted(old(self)@.lines, width, a, b);
            assert forall|k: int| 0 <= k < want.len() implies #[trigger] self@.lines[k]
                == want[k] by {
                let row = old(self)@.lines[k];
                let plain = deselected(cells_of(row));
                lemma_cells_len(row);
                lemma_reshaped(row, plain);
                if s.1 <= k <= e.1 {
                    let marked = selected(plain, first_column(k, s), end_column(k, e, width));
                    lemma_reshaped(mid.lines[k], marked);
                    lemma_same_shape_reshaped(self@.lines[k], row);
                }
            }
            assert(self@.lines =~= want);
        }
    }

    /// Clears the selection: no cell is selected and no end is kept.
    pub fn clear_selection(&mut self)
        requires
            old(self).wf(),
        ensures
            final(self)@ == old(self)@.clear_selection(),
            final(self).wf(),
    {
        self.deselect_rows();
        self.selection_start = None;
        self.selection_end = None;
        self.needs_render = true;
    }

    /// Scrolls up by `lines` lines, as far as the oldest line, and clears the selection.
    pub fn scroll_up(&mut self, lines: usize)
        requires
            old(self).wf(),
        ensures
            final(self)@ == old(self)@.scroll_up(lines),
            final(self).wf(),
    {
        if self.view_start >= lines {
            self.view_start = self.view_start - lines;
        } else {
            self.view_start = 0;
        }
        self.clear_selection();
    }

    /// Scrolls down by `lines` lines, as far as the newest line, and clears
    /// the selection.
    pub fn scroll_down(&mut self, lines: usize)
        requires
            old(self).wf(),
        ensures
            final(self)@ == old(self)@.scroll_down(lines),
            final(self).wf(),
    {
        let bottom = self.bottom();
        self.view_start = if lines < bottom - self.view_start {
            self.view_start + lines
        } else {
            bottom
        };
        self.clear_selection();
    }

    /// Scrolls to the newest line.
    pub fn scroll_to_bottom(&mut self)
        requires
            old(self).wf(),
        ensures
            final(self)@ == old(self)@.scroll_to_bottom(),
            final(self).wf(),
    {
        self.view_start = self.bottom();
        self.needs_render = true;
    }

    /// Scrolls to the oldest line.
    pub fn scroll_to_top(&mut self)
        requires
            old(self).wf(),
        ensures
            final(self)@ == old(self)@.scroll_to_top(),
            final(self).wf(),
    {
        self.view_start = 0;
        self.needs_render = true;
    }

    /// Starts a selection at the position `pos` of the screen. An earlier
    /// selection is cleared.
    pub fn start_selection(&mut self, pos: Position)
        requires
            old(self).wf(),
        ensures
            final(self)@ == old(self)@.start_selection(pos),
            final(self).wf(),
    {
        let absolute_line = self.view_start + pos.y as usize;
        self.clear_selection();
        self.selection_start = Some((pos.x, absolute_line));
    }

    /// Extends the selection to the position `pos` of the screen and marks
    /// the cells between its two ends.
    pub fn update_selection(&mut self, pos: Position)
        requires
            old(self).wf(),
        ensures
            final(self)@ == old(self)@.update_selection(pos),
            final(self).wf(),
    {
        let absolute_line = self.view_start + pos.y as usize;
        let end = (pos.x, absolute_line);
        self.selection_end = Some(end);
        match self.selection_start {
            Some(start) => {
                self.highlight(start, end);
            },
            None => {
                self.deselect_rows();
            },
        }
        self.needs_render = true;
    }

    /// The characters that row `i` gives to the selection from `s` to `e`.
    fn append_row_text(&self, out: &mut String, s: Anchor, e: Anchor, i: usize)
        requires
            self.wf(),
            i < self@.lines.len(),
        ensures
            final(out)@ == old(out)@ + row_text(self@.lines, self@.width() as int, s, e, i as int),
    {
        let row = &self.lines[i];
        let width = self.rect.width as usize;
        assert(cell_count(self@.lines[i as int]) <= self@.width());
        let n = row.num_cells();
        let first = if i == s.1 {
            s.0 as usize
        } else {
            0
        };
        let end = if i == e.1 {
            let last = width - 1;
            if (e.0 as usize) < last {
                e.0 as usize + 1
            } else {
                last + 1
            }
        } else {
            width
        };
        let from = if first < n {
            first
        } else {
            n
        };
        let to = if end < n {
            end
        } else {
            n
        };
        let ghost cells = cells_of(row@);
        proof {
            lemma_cells_len(row@);
        }
        let mut x = from;
        while x < to
            invariant
                from <= x,
                x <= to || x == from,
                to <= n,
                n == cells.len(),
                n == cell_count(row@),
                cells == cells_of(row@),
                out@ == old(out)@ + (if from < x {
                    characters(cells.subrange(from as int, x as int))
                } else {
                    Seq::<char>::empty()
                }),
            decreases to - x,
        {
            match row.get_cell(x) {
                Some(cell) => {
                    push_char(out, cell.character);
                },
                None => {},
            }
            x = x + 1;
        }
        if i < e.1 {
            push_char(out, '\n');
        }
    }

    /// The text of the selection: the characters of the selected cells with
    /// a line break between rows and no whitespace at the end. Without a
    /// selection the text is empty.
    pub fn get_selected_text(&self) -> (text: String)
        requires
            self.wf(),
        ensures
            text@ == self@.selection_text(),
    {
        match (self.selection_start, self.selection_end) {
            (Some(a), Some(b)) => {
                let (s, e) = if a.1 < b.1 || (a.1 == b.1 && a.0 <= b.0) {
                    (a, b)
                } else {
                    (b, a)
                };
                let ghost width = self@.width() as int;
                let mut out = String::new();
                let len = self.lines.len();
                let mut i: usize = s.1;
                while i < len && i <= e.1
                    invariant
                        s.1 <= i <= e.1 + 1,
                        self.wf(),
                        len == self@.lines.len(),
                        width == self@.width(),
                        out@ == rows_text(self@.lines, width, s, e, i as int),
                    decreases len - i,
                {
                    self.append_row_text(&mut out, s, e, i);
                    i = i + 1;
                }
                proof {
                    if i <= e.1 {
                        lemma_rows_beyond(self@.lines, width, s, e, i as int, e.1 + 1);
                    }
                }
                let trimmed = trim_end(out.as_str());
                trimmed.to_owned()
            },
            _ => String::new(),
        }
    }

    /// Gives the text of the selection, to be put on the clipboard, and
    /// clears the selection.
    pub fn copy_to_clipboard(&mut self) -> (text: String)
        requires
            old(self).wf(),
        ensures
            text@ == old(self)@.selection_text(),
            final(self)@ == old(self)@.clear_selection(),
            final(self).wf(),
    {
        let text = self.get_selected_text();
        self.clear_selection();
        text
    }

    /// Drops the scrollback: one blank row stays, and cursor and view return
    /// to the origin.
    pub fn clear_buffer(&mut self)
        requires
            old(self).wf(),
        ensures
            final(self)@ == old(self)@.clear_buffer(),
            final(self).wf(),
    {
        self.lines.clear();
        self.view_start = 0;
        self.cursor = Position::origin();
        self.lines.push_back(Line::new_empty(self.rect.width as usize, self.defaults));
        self.needs_render = true;
        proof {
            lemma_blank_line_count(self@.width(), self@.defaults);
            assert(self@.lines =~= seq![old(self)@.blank_row()]);
        }
    }

    /// Carries out a command of the user interface. The text that a copy
    /// gives is to be put on the clipboard; every other command gives none.
    pub fn apply(&mut self, command: UICommand) -> (copied: Option<String>)
        requires
            old(self).wf(),
        ensures
            final(self).wf(),
            match command {
                UICommand::ScrollUp(n) => final(self)@ == old(self)@.scroll_up(n) && copied is None,
                UICommand::ScrollDown(n) => final(self)@ == old(self)@.scroll_down(n)
                    && copied is None,
                UICommand::ScrollTop => final(self)@ == old(self)@.scroll_to_top()
                    && copied is None,
                UICommand::ScrollBottom => final(self)@ == old(self)@.scroll_to_bottom()
                    && copied is None,
                UICommand::StartSelection(pos) => final(self)@ == old(self)@.start_selection(pos)
                    && copied is None,
                UICommand::UpdateSelection(pos) => final(self)@ == old(self)@.update_selection(pos)
                    && copied is None,
                UICommand::CopySelection => final(self)@ == old(self)@.clear_selection()
                    && copied is Some && copied->0@ == old(self)@.selection_text(),
                UICommand::ClearBuffer => final(self)@ == old(self)@.clear_buffer()
                    && copied is None,
            },
    {
        match command {
            UICommand::ScrollUp(n) => {
                self.scroll_up(n);
                None
            },
            UICommand::ScrollDown(n) => {
                self.scroll_down(n);
                None
            },
            UICommand::ScrollTop => {
                self.scroll_to_top();
                None
            },
            UICommand::ScrollBottom => {
                self.scroll_to_bottom();
                None
            },
            UICommand::StartSelection(pos) => {
                self.start_selection(pos);
                None
            },
            UICommand::UpdateSelection(pos) => {
                self.update_selection(pos);
                None
            },
            UICommand::CopySelection => Some(self.copy_to_clipboard()),
            UICommand::ClearBuffer => {
                self.clear_buffer();
                None
            },
        }
    }
}

} // verus!
