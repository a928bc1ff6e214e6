//! Positions in the scrollback and on the screen, and the cursor's interface.

use vstd::prelude::*;
use vstd::std_specs::convert::IntoSpec;

verus! {

/// A column and a row. For the cursor, `y` is a line of the scrollback; for
/// a rectangle's origin or a mouse event, a row of the screen.
#[derive(Debug, Clone, Copy, Eq, PartialEq, Hash, Structural)]
pub struct Position {
    pub x: u16,
    pub y: u16,
}

impl Position {
    /// The position of column 0 and row 0, as a value.
    pub open spec fn origin_spec() -> Position {
        Position { x: 0, y: 0 }
    }

    /// The position of column 0 and row 0.
    #[verifier::when_used_as_spec(origin_spec)]
    pub fn origin() -> (p: Position)
        ensures
            p == Position::origin_spec(),
    {
        Position { x: 0, y: 0 }
    }

    /// The position of column `x` and row `y`.
    pub fn new(x: u16, y: u16) -> (p: Position)
        ensures
            p.x == x,
            p.y == y,
    {
        Position { x, y }
    }

    /// Replaces the row.
    pub fn set_y(&mut self, y: u16)
        ensures
            final(self).x == old(self).x,
            final(self).y == y,
    {
        self.y = y;
    }

    /// Replaces the column.
    pub fn set_x(&mut self, x: u16)
        ensures
            final(self).x == x,
            final(self).y == old(self).y,
    {
        self.x = x;
    }

    /// Replaces the position by what `pos` converts into.
    pub fn set_pos_from<P: Into<Position>>(&mut self, pos: P)
        ensures
            P::obeys_into_spec() ==> *final(self) == pos.into_spec(),
    {
        let p: Position = pos.into();
        self.x = p.x;
        self.y = p.y;
    }

    /// Replaces the position by `pos`.
    pub fn set_pos(&mut self, pos: Position)
        ensures
            *final(self) == pos,
    {
        *self = pos;
    }

    /// The column.
    pub fn get_x(&self) -> (x: u16)
        ensures
            x == self.x,
    {
        self.x
    }

    /// The row.
    pub fn get_y(&self) -> (y: u16)
        ensures
            y == self.y,
    {
        self.y
    }

    /// The position as a pair, column first.
    pub fn as_pair(&self) -> (p: (u16, u16))
        ensures
            p.0 == self.x,
            p.1 == self.y,
    {
        (self.x, self.y)
    }
}

impl Default for Position {
    fn default() -> (p: Position)
        ensures
            p == Position::origin_spec(),
    {
        Position { x: 0, y: 0 }
    }
}

impl From<(u16, u16)> for Position {
    fn from(value: (u16, u16)) -> (p: Position) {
        Position { x: value.0, y: value.1 }
    }
}

impl vstd::std_specs::convert::FromSpecImpl<(u16, u16)> for Position {
    open spec fn obeys_from_spec() -> bool {
        true
    }

    open spec fn from_spec(value: (u16, u16)) -> Position {
        Position { x: value.0, y: value.1 }
    }
}

/// The moves of a cursor that stays inside its bounds. What is moved says
/// when it is `valid`; every move keeps it so.
pub trait Cursor {
    /// Whether the cursor and what holds it are in a consistent state.
    spec fn valid(&self) -> bool;

    /// Puts the cursor at what `position` converts into, or as near to it
    /// as the bounds allow.
    fn set_cursor_pos<P: Into<Position>>(&mut self, position: P)
        requires
            old(self).valid(),
        ensures
            final(self).valid(),
    ;

    /// Moves the cursor left by `cells` columns, stopping at the first column.
    fn move_cursor_left(&mut self, cells: u16)
        requires
            old(self).valid(),
        ensures
            final(self).valid(),
    ;

    /// Moves the cursor up by `lines` rows, stopping at the first line.
    fn move_cursor_up(&mut self, lines: u16)
        requires
            old(self).valid(),
        ensures
            final(self).valid(),
    ;

    /// Moves the cursor down by `lines` rows, stopping at the last line.
    fn move_cursor_down(&mut self, lines: u16)
        requires
            old(self).valid(),
        ensures
            final(self).valid(),
    ;

    /// Moves the cursor right by `cells` columns, stopping at the last column.
    fn move_cursor_right(&mut self, cells: u16)
        requires
            old(self).valid(),
        ensures
            final(self).valid(),
    ;

    /// Puts the cursor in column `col`, or in the last column if `col` is beyond it.
    fn set_cursor_col(&mut self, col: u16)
        requires
            old(self).valid(),
        ensures
            final(self).valid(),
    ;
}

} // verus!
