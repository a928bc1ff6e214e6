//! A run of cells that share one style.

use vstd::prelude::*;
use crate::cell::{blanks, cells_of_bytes, Cell};
use crate::color_state::ColorState;
use crate::style::{Attribute, Attributes, Colors};

verus! {

/// An ordered run of cells with the colors and attributes that all of them have.
#[derive(Debug, Clone, Eq, PartialEq)]
pub struct Span {
    cells: Vec<Cell>,
    attrs: Attributes,
    colors: Colors,
}

/// What a [`Span`] is in specifications.
pub struct SpanView {
    pub cells: Seq<Cell>,
    pub attrs: Attributes,
    pub colors: Colors,
}

impl View for Span {
    type V = SpanView;

    closed spec fn view(&self) -> SpanView {
        SpanView { cells: self.cells@, attrs: self.attrs, colors: self.colors }
    }
}

impl SpanView {
    /// The span without cells that has `colors` and `attrs`.
    pub open spec fn styled(colors: Colors, attrs: Attributes) -> SpanView {
        SpanView { cells: Seq::empty(), attrs, colors }
    }

    /// The span of `width` blank cells with `colors` and no attribute.
    pub open spec fn blank(width: nat, colors: Colors) -> SpanView {
        SpanView { cells: blanks(width), attrs: Attributes::empty(), colors }
    }

    /// This span with other cells.
    pub open spec fn with_cells(self, cells: Seq<Cell>) -> SpanView {
        SpanView { cells, ..self }
    }

    /// This span cut or padded with blank cells to `width` cells.
    pub open spec fn resized(self, width: nat) -> SpanView {
        if width <= self.cells.len() {
            self.with_cells(self.cells.subrange(0, width as int))
        } else {
            self.with_cells(self.cells + blanks((width - self.cells.len()) as nat))
        }
    }
}

impl Span {
    /// A span of `width` blank cells with `colors` and no attribute.
    pub fn new_empty(width: usize, colors: Colors) -> (s: Span)
        ensures
            s@ == SpanView::blank(width as nat, colors),
    {
        let mut s = Span { cells: Vec::new(), attrs: Attributes::none(), colors };
        s.fill_to_width(width);
        assert(s@.cells =~= blanks(width as nat));
        s
    }

    /// A span without cells, with room for `width` of them, that has `colors`
    /// and `attrs`.
    pub fn reserve_new(width: usize, colors: Colors, attrs: Attributes) -> (s: Span)
        ensures
            s@ == SpanView::styled(colors, attrs),
    {
        Span { cells: Vec::with_capacity(width), attrs, colors }
    }

    /// Replaces the attributes.
    pub fn set_attrs(&mut self, attrs: Attributes)
        ensures
            final(self)@ == (SpanView { attrs, ..old(self)@ }),
    {
        self.attrs = attrs;
    }

    /// Adds one attribute.
    pub fn add_attr(&mut self, attr: Attribute)
        ensures
            final(self)@ == (SpanView { attrs: old(self)@.attrs.plus(attr), ..old(self)@ }),
    {
        self.attrs.set(attr);
    }

    /// Replaces the colors by those in force in `colors`.
    pub fn set_colors(&mut self, colors: &ColorState)
        ensures
            final(self)@ == (SpanView { colors: colors@, ..old(self)@ }),
    {
        self.colors = colors.get_colors();
    }

    /// Drops all cells and returns to `colors` and no attribute.
    pub fn reset(&mut self, colors: Colors)
        ensures
            final(self)@ == SpanView::styled(colors, Attributes::empty()),
    {
        self.cells.clear();
        self.attrs = Attributes::none();
        self.colors = colors;
    }

    /// Pads the span with blank cells to `width` cells; a longer span is cut
    /// to `width`.
    pub fn fill_to_width(&mut self, width: usize)
        ensures
            final(self)@ == old(self)@.resized(width as nat),
    {
        self.cells.resize(width, Cell::empty());
        proof {
            if width > old(self)@.cells.len() {
                assert(self.cells@ =~= old(self)@.cells + blanks(
                    (width - old(self)@.cells.len()) as nat,
                ));
            }
        }
    }

    /// Appends a cell.
    pub fn push(&mut self, cell: Cell)
        ensures
            final(self)@ == old(self)@.with_cells(old(self)@.cells.push(cell)),
    {
        self.cells.push(cell);
    }

    /// Appends one unselected cell for every byte of `bytes`, showing the
    /// character of the byte.
    pub fn push_bytes(&mut self, bytes: &[u8])
        ensures
            final(self)@ == old(self)@.with_cells(old(self)@.cells + cells_of_bytes(bytes@)),
    {
        let mut i: usize = 0;
        while i < bytes.len()
            invariant
                i <= bytes@.len(),
                self@ == old(self)@.with_cells(
                    old(self)@.cells + cells_of_bytes(bytes@.take(i as int)),
                ),
            decreases bytes@.len() - i,
        {
            self.cells.push(Cell::new(bytes[i] as char));
            i = i + 1;
            assert(self@.cells =~= old(self)@.cells + cells_of_bytes(bytes@.take(i as int)));
        }
        proof {
            assert(bytes@.take(i as int) =~= bytes@);
        }
    }

    /// The number of cells.
    pub fn len(&self) -> (n: usize)
        ensures
            n == self@.cells.len(),
    {
        self.cells.len()
    }

    /// Tells whether the span has no cell.
    pub fn is_empty(&self) -> (r: bool)
        ensures
            r == (self@.cells.len() == 0),
    {
        self.cells.len() == 0
    }

    /// The colors of the span.
    pub fn colors(&self) -> (c: Colors)
        ensures
            c == self@.colors,
    {
        self.colors
    }

    /// The attributes of the span.
    pub fn attrs(&self) -> (a: Attributes)
        ensures
            a == self@.attrs,
    {
        self.attrs
    }

    /// The cells of the span.
    pub fn cells(&self) -> (c: &Vec<Cell>)
        ensures
            c@ == self@.cells,
    {
        &self.cells
    }

    /// The cell at `index`, if there is one.
    pub fn get(&self, index: usize) -> (c: Option<Cell>)
        ensures
            index < self@.cells.len() ==> c == Some(self@.cells[index as int]),
            index >= self@.cells.len() ==> c is None,
    {
        if index < self.cells.len() {
            Some(self.cells[index])
        } else {
            None
        }
    }

    /// The cell at `index`, to be changed in place, if there is one.
    pub fn get_mut(&mut self, index: usize) -> (c: Option<&mut Cell>)
        ensures
            match c {
                Some(cell) => index < old(self)@.cells.len() && *cell == old(self)@.cells[index as int]
                    && final(self)@ == old(self)@.with_cells(
                    old(self)@.cells.update(index as int, *final(cell)),
                ),
                None => index >= old(self)@.cells.len() && final(self)@ == old(self)@,
            },
    {
        if index < self.cells.len() {
            Some(&mut self.cells[index])
        } else {
            None
        }
    }

    /// Replaces the cell at `index`.
    pub fn put(&mut self, index: usize, cell: Cell)
        requires
            index < old(self)@.cells.len(),
        ensures
            final(self)@ == old(self)@.with_cells(old(self)@.cells.update(index as int, cell)),
    {
        self.cells[index] = cell;
    }
}

} // verus!
