//! One cell of a terminal row.

use vstd::prelude::*;

verus! {

/// A character and whether the selection covers it. The style of a cell is
/// that of the span it stands in.
#[derive(Debug, Clone, Copy, Eq, PartialEq, Hash, Structural)]
pub struct Cell {
    pub character: char,
    pub is_selected: bool,
}

impl Cell {
    /// The blank cell: a space that is not selected.
    pub open spec fn blank() -> Cell {
        Cell { character: ' ', is_selected: false }
    }

    /// The unselected cell that shows the character of the byte `b`.
    pub open spec fn of_byte(b: u8) -> Cell {
        Cell { character: b as char, is_selected: false }
    }

    /// The unselected cell that shows `character`.
    pub fn new(character: char) -> (c: Cell)
        ensures
            c == (Cell { character, is_selected: false }),
    {
        Cell { character, is_selected: false }
    }

    /// The blank cell.
    pub fn empty() -> (c: Cell)
        ensures
            c == Cell::blank(),
    {
        Cell { character: ' ', is_selected: false }
    }
}

impl Default for Cell {
    /// The blank cell.
    fn default() -> (c: Cell)
        ensures
            c == Cell::blank(),
    {
        Cell { character: ' ', is_selected: false }
    }
}

/// `n` blank cells.
pub open spec fn blanks(n: nat) -> Seq<Cell> {
    Seq::new(n, |i: int| Cell::blank())
}

/// The unselected cells that show the bytes of `run`.
pub open spec fn cells_of_bytes(run: Seq<u8>) -> Seq<Cell> {
    Seq::new(run.len(), |i: int| Cell::of_byte(run[i]))
}

/// The characters of `cells`, in order.
pub open spec fn characters(cells: Seq<Cell>) -> Seq<char> {
    Seq::new(cells.len(), |i: int| cells[i].character)
}

} // verus!
