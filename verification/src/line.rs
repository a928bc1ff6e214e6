//! One terminal row: an ordered sequence of spans.

use vstd::prelude::*;
use crate::cell::Cell;
use crate::span::{Span, SpanView};
use crate::style::{Attributes, Colors};

verus! {

/// The spans of one terminal row, left to right.
#[derive(Debug, Clone, Eq, PartialEq)]
pub struct Line {
    spans: Vec<Span>,
}

impl View for Line {
    type V = Seq<SpanView>;

    closed spec fn view(&self) -> Seq<SpanView> {
        Seq::new(self.spans@.len(), |i: int| self.spans@[i]@)
    }
}

/// The number of cells in `spans`.
pub open spec fn cell_count(spans: Seq<SpanView>) -> nat
    decreases spans.len(),
{
    if spans.len() == 0 {
        0
    } else {
        cell_count(spans.drop_last()) + spans.last().cells.len()
    }
}

/// The cells of `spans`, left to right.
pub open spec fn cells_of(spans: Seq<SpanView>) -> Seq<Cell>
    decreases spans.len(),
{
    if spans.len() == 0 {
        Seq::empty()
    } else {
        cells_of(spans.drop_last()) + spans.last().cells
    }
}

/// The column of the first cell of span `i`.
pub open spec fn span_start(spans: Seq<SpanView>, i: int) -> nat {
    cell_count(spans.take(i))
}

/// Whether two rows have the same spans but for what their cells hold.
pub open spec fn same_shape(a: Seq<SpanView>, b: Seq<SpanView>) -> bool {
    &&& a.len() == b.len()
    &&& forall|i: int|
        #![trigger a[i]]
        0 <= i < a.len() ==> a[i].cells.len() == b[i].cells.len() && a[i].attrs == b[i].attrs
            && a[i].colors == b[i].colors
}

/// The row of the same shape as `spans` whose cells are `cells`, left to right.
pub open spec fn reshaped(spans: Seq<SpanView>, cells: Seq<Cell>) -> Seq<SpanView> {
    Seq::new(
        spans.len(),
        |i: int|
            spans[i].with_cells(
                cells.subrange(
                    span_start(spans, i) as int,
                    (span_start(spans, i) + spans[i].cells.len()) as int,
                ),
            ),
    )
}

/// `cells` with those in columns `from` up to but not including `to` made blank.
pub open spec fn blanked(cells: Seq<Cell>, from: int, to: int) -> Seq<Cell> {
    Seq::new(
        cells.len(),
        |c: int|
            if from <= c < to {
                Cell::blank()
            } else {
                cells[c]
            },
    )
}

/// `cells` with those in columns `from` up to but not including `to` selected.
pub open spec fn selected(cells: Seq<Cell>, from: int, to: int) -> Seq<Cell> {
    Seq::new(
        cells.len(),
        |c: int|
            if from <= c < to {
                Cell { is_selected: true, ..cells[c] }
            } else {
                cells[c]
            },
    )
}

/// `cells` with none selected.
pub open spec fn deselected(cells: Seq<Cell>) -> Seq<Cell> {
    Seq::new(cells.len(), |c: int| Cell { is_selected: false, ..cells[c] })
}

/// `cells` with the character in column `idx` replaced, if there is such a column.
pub open spec fn with_char(cells: Seq<Cell>, idx: int, ch: char) -> Seq<Cell> {
    if 0 <= idx < cells.len() {
        cells.update(idx, Cell { character: ch, ..cells[idx] })
    } else {
        cells
    }
}

/// The row that holds one span of `width` blank cells with `colors`.
pub open spec fn blank_line(width: nat, colors: Colors) -> Seq<SpanView> {
    seq![SpanView::blank(width, colors)]
}

/// The cells of a row are as many as its cell count.
pub proof fn lemma_cells_len(spans: Seq<SpanView>)
    ensures
        cells_of(spans).len() == cell_count(spans),
    decreases spans.len(),
{
    if spans.len() > 0 {
        lemma_cells_len(spans.drop_last());
    }
}

/// A row with one more span has the cells of the row, then those of the span.
pub proof fn lemma_push_span(spans: Seq<SpanView>, span: SpanView)
    ensures
        cells_of(spans.push(span)) == cells_of(spans) + span.cells,
        cell_count(spans.push(span)) == cell_count(spans) + span.cells.len(),
{
    assert(spans.push(span).drop_last() =~= spans);
}

/// Span `i` starts where span `i - 1` ends, and no span starts beyond the row.
pub proof fn lemma_span_start(spans: Seq<SpanView>, i: int)
    requires
        0 <= i < spans.len(),
    ensures
        span_start(spans, i + 1) == (span_start(spans, i) + spans[i].cells.len()) as int,
        span_start(spans, i + 1) <= cell_count(spans),
        span_start(spans, 0) == 0,
    decreases spans.len() - i,
{
    assert(spans.take(i + 1).drop_last() =~= spans.take(i));
    if i + 1 < spans.len() {
        lemma_span_start(spans, i + 1);
    }
}

/// Cell `j` of span `i` is the cell of the row in column `span_start + j`.
pub proof fn lemma_cell_of_span(spans: Seq<SpanView>, i: int, j: int)
    requires
        0 <= i < spans.len(),
        0 <= j < spans[i].cells.len(),
    ensures
        span_start(spans, i) + j < cell_count(spans),
        cells_of(spans)[span_start(spans, i) + j] == spans[i].cells[j],
    decreases spans.len(),
{
    lemma_cells_len(spans.drop_last());
    if i < spans.len() - 1 {
        lemma_cell_of_span(spans.drop_last(), i, j);
        assert(spans.drop_last().take(i) =~= spans.take(i));
    }
}

/// Replacing cell `j` of span `i` replaces the cell of the row in column
/// `span_start + j` and leaves the shape of the row as it is.
pub proof fn lemma_put_cell(spans: Seq<SpanView>, i: int, j: int, cell: Cell)
    requires
        0 <= i < spans.len(),
        0 <= j < spans[i].cells.len(),
    ensures
        ({
            let after = spans.update(i, spans[i].with_cells(spans[i].cells.update(j, cell)));
            &&& cells_of(after) == cells_of(spans).update(span_start(spans, i) + j, cell)
            &&& cell_count(after) == cell_count(spans)
            &&& same_shape(after, spans)
        }),
    decreases spans.len(),
{
    let after = spans.update(i, spans[i].with_cells(spans[i].cells.update(j, cell)));
    lemma_cells_len(spans.drop_last());
    if i == spans.len() - 1 {
        assert(after.drop_last() =~= spans.drop_last());
    } else {
        lemma_put_cell(spans.drop_last(), i, j, cell);
        lemma_cell_of_span(spans.drop_last(), i, j);
        assert(after.drop_last() =~= spans.drop_last().update(
            i,
            spans[i].with_cells(spans[i].cells.update(j, cell)),
        ));
        assert(spans.drop_last().take(i) =~= spans.take(i));
    }
}

/// Two rows of the same shape with the same cells are the same row.
pub proof fn lemma_shape_and_cells(a: Seq<SpanView>, b: Seq<SpanView>)
    requires
        same_shape(a, b),
        cells_of(a) == cells_of(b),
    ensures
        a == b,
    decreases a.len(),
{
    if a.len() > 0 {
        let n = a.len() - 1;
        lemma_cells_len(a.drop_last());
        lemma_cells_len(b.drop_last());
        lemma_same_shape_count(a.drop_last(), b.drop_last());
        let k = cell_count(a.drop_last()) as int;
        assert(cells_of(a.drop_last()) =~= cells_of(a).subrange(0, k));
        assert(cells_of(b.drop_last()) =~= cells_of(b).subrange(0, k));
        assert(a[n].cells =~= cells_of(a).subrange(k, cells_of(a).len() as int));
        assert(b[n].cells =~= cells_of(b).subrange(k, cells_of(b).len() as int));
        lemma_shape_and_cells(a.drop_last(), b.drop_last());
        assert(b =~= b.drop_last().push(b[n]));
    }
}

/// A row given other cells, as many as it has, keeps its shape and holds
/// exactly those cells.
pub proof fn lemma_reshaped(spans: Seq<SpanView>, cells: Seq<Cell>)
    requires
        cells.len() == cell_count(spans),
    ensures
        same_shape(reshaped(spans, cells), spans),
        cells_of(reshaped(spans, cells)) == cells,
        cell_count(reshaped(spans, cells)) == cell_count(spans),
    decreases spans.len(),
{
    let r = reshaped(spans, cells);
    assert forall|i: int| 0 <= i < spans.len() implies #[trigger] r[i].cells.len()
        == spans[i].cells.len() && r[i].attrs == spans[i].attrs && r[i].colors
        == spans[i].colors by {
        lemma_span_start(spans, i);
    }
    if spans.len() > 0 {
        let n = spans.len() - 1;
        let k = cell_count(spans.drop_last());
        let head = cells.subrange(0, k as int);
        lemma_reshaped(spans.drop_last(), head);
        assert(r.drop_last() =~= reshaped(spans.drop_last(), head)) by {
            assert forall|i: int| 0 <= i < n implies r[i] == reshaped(spans.drop_last(), head)[i] by {
                lemma_span_start(spans, i);
                lemma_span_start(spans.drop_last(), i);
                assert(spans.drop_last().take(i + 1) =~= spans.take(i + 1));
                assert(cells.subrange(
                    span_start(spans, i) as int,
                    (span_start(spans, i) + spans[i].cells.len()) as int,
                ) =~= head.subrange(
                    span_start(spans, i) as int,
                    (span_start(spans, i) + spans[i].cells.len()) as int,
                ));
            }
        }
    }
}

/// A row of the same shape as another is that other row given its own cells.
pub proof fn lemma_same_shape_reshaped(a: Seq<SpanView>, b: Seq<SpanView>)
    requires
        same_shape(a, b),
    ensures
        a == reshaped(b, cells_of(a)),
{
    lemma_same_shape_count(a, b);
    lemma_cells_len(a);
    lemma_reshaped(b, cells_of(a));
    let r = reshaped(b, cells_of(a));
    lemma_shape_and_cells(a, r);
}

/// Being of the same shape goes both ways and carries over.
pub proof fn lemma_same_shape_chain(a: Seq<SpanView>, b: Seq<SpanView>, c: Seq<SpanView>)
    requires
        same_shape(a, b),
        same_shape(b, c),
    ensures
        same_shape(a, c),
        same_shape(b, a),
{
}

/// Rows of the same shape have the same number of cells.
pub proof fn lemma_same_shape_count(a: Seq<SpanView>, b: Seq<SpanView>)
    requires
        same_shape(a, b),
    ensures
        cell_count(a) == cell_count(b),
    decreases a.len(),
{
    if a.len() > 0 {
        lemma_same_shape_count(a.drop_last(), b.drop_last());
    }
}

impl Line {
    /// A row without spans, with room for `spans` of them.
    pub fn reserve_new(spans: usize) -> (l: Line)
        ensures
            l@ == Seq::<SpanView>::empty(),
    {
        let l = Line { spans: Vec::with_capacity(spans) };
        l
    }

    /// A row of `width` blank cells in one span that has `colors` and no attribute.
    pub fn new_empty(width: usize, colors: Colors) -> (l: Line)
        ensures
            l@ == blank_line(width as nat, colors),
    {
        let mut spans: Vec<Span> = Vec::new();
        spans.push(Span::new_empty(width, colors));
        let l = Line { spans };
        l
    }

    /// A row of `width` spans without cells, each with `colors` and no attribute.
    pub fn new_default(width: usize, colors: Colors) -> (l: Line)
        ensures
            l@ == Seq::new(width as nat, |i: int| SpanView::styled(colors, Attributes::empty())),
    {
        let mut spans: Vec<Span> = Vec::new();
        while spans.len() < width
            invariant
                spans@.len() <= width,
                forall|i: int|
                    0 <= i < spans@.len() ==> (#[trigger] spans@[i])@ == SpanView::styled(
                        colors,
                        Attributes::empty(),
                    ),
            decreases width - spans@.len(),
        {
            spans.push(Span::reserve_new(0, colors, Attributes::none()));
        }
        let l = Line { spans };
        l
    }

    /// Drops all spans.
    pub fn reset(&mut self)
        ensures
            final(self)@ == Seq::<SpanView>::empty(),
    {
        self.spans.clear();
    }

    /// The number of spans.
    pub fn len(&self) -> (n: usize)
        ensures
            n == self@.len(),
    {
        self.spans.len()
    }

    /// Tells whether the row has no span.
    pub fn is_empty(&self) -> (r: bool)
        ensures
            r == (self@.len() == 0),
    {
        self.spans.len() == 0
    }

    /// Appends a span.
    pub fn push(&mut self, span: Span)
        ensures
            final(self)@ == old(self)@.push(span@),
    {
        self.spans.push(span);
    }

    /// The span at `idx`, if there is one.
    pub fn get_span(&self, idx: usize) -> (s: Option<&Span>)
        ensures
            idx < self@.len() ==> s is Some && s->0@ == self@[idx as int],
            idx >= self@.len() ==> s is None,
    {
        if idx < self.spans.len() {
            Some(&self.spans[idx])
        } else {
            None
        }
    }

    /// The span at `idx`, to be changed in place, if there is one.
    pub fn get_mut_span(&mut self, idx: usize) -> (s: Option<&mut Span>)
        ensures
            match s {
                Some(span) => idx < old(self)@.len() && span@ == old(self)@[idx as int]
                    && final(self)@ == old(self)@.update(idx as int, final(span)@),
                None => idx >= old(self)@.len() && final(self)@ == old(self)@,
            },
    {
        if idx < self.spans.len() {
            let span = &mut self.spans[idx];
            Some(span)
        } else {
            None
        }
    }

    /// The number of cells in the row.
    pub fn num_cells(&self) -> (n: usize)
        requires
            cell_count(self@) <= usize::MAX,
        ensures
            n == cell_count(self@),
    {
        let mut n: usize = 0;
        let mut i: usize = 0;
        while i < self.spans.len()
            invariant
                i <= self.spans@.len(),
                n == span_start(self@, i as int),
                cell_count(self@) <= usize::MAX,
            decreases self.spans@.len() - i,
        {
            proof {
                lemma_span_start(self@, i as int);
            }
            n = n + self.spans[i].len();
            i = i + 1;
        }
        proof {
            assert(self@.take(i as int) =~= self@);
        }
        n
    }

    /// Finds the span and the place in it of the cell in column `idx`.
    fn locate(&self, idx: usize) -> (r: Option<(usize, usize)>)
        ensures
            match r {
                Some((i, j)) => i < self@.len() && j < self@[i as int].cells.len() && span_start(
                    self@,
                    i as int,
                ) + j == idx,
                None => idx >= cell_count(self@),
            },
    {
        let mut rest: usize = idx;
        let mut i: usize = 0;
        while i < self.spans.len()
            invariant
                i <= self.spans@.len(),
                rest + span_start(self@, i as int) == idx,
            decreases self.spans@.len() - i,
        {
            proof {
                lemma_span_start(self@, i as int);
            }
            let n = self.spans[i].len();
            if rest < n {
                return Some((i, rest));
            }
            rest = rest - n;
            i = i + 1;
        }
        proof {
            assert(self@.take(i as int) =~= self@);
        }
        None
    }

    /// The cell in column `idx`, if the row reaches that far.
    pub fn get_cell(&self, idx: usize) -> (c: Option<Cell>)
        ensures
            idx < cell_count(self@) ==> c == Some(cells_of(self@)[idx as int]),
            idx >= cell_count(self@) ==> c is None,
    {
        match self.locate(idx) {
            Some((i, j)) => {
                proof {
                    lemma_cell_of_span(self@, i as int, j as int);
                }
                self.spans[i].get(j)
            },
            None => None,
        }
    }

    /// The cell in column `idx`, to be changed in place, if the row reaches
    /// that far.
    pub fn get_mut_cell(&mut self, idx: usize) -> (c: Option<&mut Cell>)
        ensures
            match c {
                Some(cell) => idx < cell_count(old(self)@) && *cell == cells_of(old(self)@)[idx as int]
                    && same_shape(final(self)@, old(self)@) && cells_of(final(self)@) == cells_of(
                    old(self)@,
                ).update(idx as int, *final(cell)),
                None => idx >= cell_count(old(self)@) && final(self)@ == old(self)@,
            },
    {
        match self.locate(idx) {
            Some((i, j)) => {
                proof {
                    lemma_cell_of_span(self@, i as int, j as int);
                }
                match self.get_mut_span(i) {
                    Some(span) => {
                        match span.get_mut(j) {
                            Some(cell) => {
                                proof {
                                    lemma_put_cell(old(self)@, i as int, j as int, *final(cell));
                                }
                                Some(cell)
                            },
                            None => None,
                        }
                    },
                    None => None,
                }
            },
            None => None,
        }
    }

    /// Replaces the cell in column `idx`; nothing changes if the row does not
    /// reach that far.
    pub fn put_cell(&mut self, idx: usize, cell: Cell)
        ensures
            same_shape(final(self)@, old(self)@),
            idx < cell_count(old(self)@) ==> cells_of(final(self)@) == cells_of(old(self)@).update(
                idx as int,
                cell,
            ),
            idx >= cell_count(old(self)@) ==> final(self)@ == old(self)@,
            cell_count(final(self)@) == cell_count(old(self)@),
    {
        match self.locate(idx) {
            Some((i, j)) => {
                proof {
                    lemma_put_cell(self@, i as int, j as int, cell);
                    lemma_cell_of_span(self@, i as int, j as int);
                }
                self.spans[i].put(j, cell);
                assert(self@ =~= old(self)@.update(
                    i as int,
                    old(self)@[i as int].with_cells(
                        old(self)@[i as int].cells.update(j as int, cell),
                    ),
                ));
            },
            None => {},
        }
    }

    /// Replaces the character in column `idx`; nothing changes if the row
    /// does not reach that far.
    pub fn set_char(&mut self, idx: usize, ch: char)
        ensures
            same_shape(final(self)@, old(self)@),
            cells_of(final(self)@) == with_char(cells_of(old(self)@), idx as int, ch),
            final(self)@ == reshaped(old(self)@, with_char(cells_of(old(self)@), idx as int, ch)),
    {
        proof {
            lemma_cells_len(self@);
        }
        match self.get_cell(idx) {
            Some(c) => {
                self.put_cell(idx, Cell { character: ch, is_selected: c.is_selected });
            },
            None => {},
        }
        proof {
            lemma_same_shape_reshaped(self@, old(self)@);
        }
    }

    /// Makes the cells in columns `from` up to but not including `to` blank.
    pub fn blank_range(&mut self, from: usize, to: usize)
        requires
            cell_count(old(self)@) <= usize::MAX,
        ensures
            same_shape(final(self)@, old(self)@),
            cells_of(final(self)@) == blanked(cells_of(old(self)@), from as int, to as int),
            final(self)@ == reshaped(
                old(self)@,
                blanked(cells_of(old(self)@), from as int, to as int),
            ),
    {
        let n = self.num_cells();
        let end = if to < n {
            to
        } else {
            n
        };
        let mut c = from;
        proof {
            lemma_cells_len(self@);
        }
        while c < end
            invariant
                end <= n,
                n == cell_count(old(self)@),
                from <= c,
                c <= end || c == from,
                same_shape(self@, old(self)@),
                cells_of(old(self)@).len() == n,
                cells_of(self@) == blanked(cells_of(old(self)@), from as int, c as int),
            decreases end - c,
        {
            proof {
                lemma_same_shape_count(self@, old(self)@);
            }
            let ghost before = self@;
            self.put_cell(c, Cell::empty());
            c = c + 1;
        }
        proof {
            lemma_same_shape_reshaped(self@, old(self)@);
        }
    }

    /// Makes the cells in the columns before `idx` blank.
    pub fn reset_to(&mut self, idx: usize)
        requires
            cell_count(old(self)@) <= usize::MAX,
        ensures
            final(self)@ == reshaped(old(self)@, blanked(cells_of(old(self)@), 0, idx as int)),
    {
        self.blank_range(0, idx);
    }

    /// Makes the cells in column `idx` and after it blank.
    pub fn reset_from(&mut self, idx: usize)
        requires
            cell_count(old(self)@) <= usize::MAX,
        ensures
            final(self)@ == reshaped(
                old(self)@,
                blanked(cells_of(old(self)@), idx as int, cell_count(old(self)@) as int),
            ),
    {
        let n = self.num_cells();
        self.blank_range(idx, n);
    }

    /// Marks the cells in columns `from` up to but not including `to` as selected.
    pub fn select_range(&mut self, from: usize, to: usize)
        requires
            cell_count(old(self)@) <= usize::MAX,
        ensures
            same_shape(final(self)@, old(self)@),
            cells_of(final(self)@) == selected(cells_of(old(self)@), from as int, to as int),
            final(self)@ == reshaped(
                old(self)@,
                selected(cells_of(old(self)@), from as int, to as int),
            ),
    {
        let n = self.num_cells();
        let end = if to < n {
            to
        } else {
            n
        };
        let mut c = from;
        proof {
            lemma_cells_len(self@);
        }
        while c < end
            invariant
                end <= n,
                n == cell_count(old(self)@),
                from <= c,
                c <= end || c == from,
                same_shape(self@, old(self)@),
                cells_of(old(self)@).len() == n,
                cells_of(self@) == selected(cells_of(old(self)@), from as int, c as int),
            decreases end - c,
        {
            proof {
                lemma_cells_len(self@);
            }
            match self.get_cell(c) {
                Some(cell) => {
                    self.put_cell(c, Cell { character: cell.character, is_selected: true });
                },
                None => {},
            }
            c = c + 1;
        }
        assert(cells_of(self@) =~= selected(cells_of(old(self)@), from as int, to as int));
        proof {
            lemma_same_shape_reshaped(self@, old(self)@);
        }
    }

    /// Marks every cell as not selected.
    pub fn clear_selection(&mut self)
        requires
            cell_count(old(self)@) <= usize::MAX,
        ensures
            same_shape(final(self)@, old(self)@),
            cells_of(final(self)@) == deselected(cells_of(old(self)@)),
            final(self)@ == reshaped(old(self)@, deselected(cells_of(old(self)@))),
    {
        let n = self.num_cells();
        let mut c: usize = 0;
        proof {
            lemma_cells_len(self@);
        }
        while c < n
            invariant
                c <= n,
                n == cell_count(old(self)@),
                same_shape(self@, old(self)@),
                cells_of(old(self)@).len() == n,
                cells_of(self@).len() == n,
                forall|k: int|
                    0 <= k < n ==> #[trigger] cells_of(self@)[k] == (if k < c {
                        Cell { is_selected: false, ..cells_of(old(self)@)[k] }
                    } else {
                        cells_of(old(self)@)[k]
                    }),
            decreases n - c,
        {
            match self.get_cell(c) {
                Some(cell) => {
                    self.put_cell(c, Cell { character: cell.character, is_selected: false });
                },
                None => {},
            }
            c = c + 1;
            proof {
                lemma_cells_len(self@);
            }
        }
        proof {
            lemma_same_shape_reshaped(self@, old(self)@);
        }
    }
}

impl Default for Line {
    /// The row without spans.
    fn default() -> (l: Line)
        ensures
            l@ == Seq::<SpanView>::empty(),
    {
        Line::reserve_new(0)
    }
}

} // verus!
