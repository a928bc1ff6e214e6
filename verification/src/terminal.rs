//! What the library takes from the terminal library: its parser of extended
//! color forms.

use vstd::prelude::*;
use crossterm::style::Color;
use crossterm::style::Colored::{self, BackgroundColor, ForegroundColor, UnderlineColor};
use crate::terminal::AnsiLayer::{Background, Foreground, Underline};
use crate::style::TermColor::{
    self, AnsiValue, Black, Blue, Cyan, DarkBlue, DarkCyan, DarkGreen, DarkGrey, DarkMagenta,
    DarkRed, DarkYellow, Green, Grey, Magenta, Red, Reset, Rgb, White, Yellow,
};

verus! {

/// What a parsed color applies to.
#[derive(Debug, Clone, Copy, PartialEq, Eq, Structural)]
pub enum AnsiLayer {
    Foreground,
    Background,
    Underline,
}

/// What `crossterm::style::Colored::parse_ansi` returns for the text `s`:
/// the layer and the color, or nothing.
pub uninterp spec fn ansi_colored(s: Seq<char>) -> Option<(AnsiLayer, TermColor)>;

/// `Colored::parse_ansi` reads a text such as `38;5;26` or `48;2;50;60;70`.
/// Nothing is claimed of its result but that it depends on the text alone;
/// layer and color are handed on variant by variant.
#[verifier::external_body]
pub(crate) fn parse_ansi(s: &str) -> (r: Option<(AnsiLayer, TermColor)>)
    ensures
        r == ansi_colored(s@),
{
    let (layer, color) = match Colored::parse_ansi(s)? {
        ForegroundColor(c) => (Foreground, c),
        BackgroundColor(c) => (Background, c),
        UnderlineColor(c) => (Underline, c),
    };
    Some((layer, match color {
        Color::Reset => Reset, Color::Black => Black, Color::DarkGrey => DarkGrey,
        Color::Red => Red, Color::DarkRed => DarkRed, Color::Green => Green,
        Color::DarkGreen => DarkGreen, Color::Yellow => Yellow, Color::DarkYellow => DarkYellow,
        Color::Blue => Blue, Color::DarkBlue => DarkBlue, Color::Magenta => Magenta,
        Color::DarkMagenta => DarkMagenta, Color::Cyan => Cyan, Color::DarkCyan => DarkCyan,
        Color::White => White, Color::Grey => Grey,
        Color::Rgb { r, g, b } => Rgb { r, g, b }, Color::AnsiValue(v) => AnsiValue(v),
    }))
}

} // verus!
