//! The active foreground and background colors, and the one place where the
//! extended color forms are handed to the terminal library's own parser.

use vstd::prelude::*;
use crate::style::{TermColor, Colors};
use crate::terminal::{ansi_colored, parse_ansi, AnsiLayer};

verus! {

/// The colors that result from `colors` once a parsed color is applied: a
/// foreground color replaces the foreground, a background or underline color
/// replaces the background, and no color leaves both as they are.
pub open spec fn then_parsed(colors: Colors, parsed: Option<(AnsiLayer, TermColor)>) -> Colors {
    match parsed {
        None => colors,
        Some((AnsiLayer::Foreground, c)) => Colors { foreground: c, ..colors },
        Some((AnsiLayer::Background, c)) => Colors { background: c, ..colors },
        Some((AnsiLayer::Underline, c)) => Colors { background: c, ..colors },
    }
}

/// The colors in force for the text that comes next.
#[derive(Debug, Clone, Copy, PartialEq, Eq, Structural)]
pub struct ColorState {
    colors: Colors,
}

impl View for ColorState {
    type V = Colors;

    closed spec fn view(&self) -> Colors {
        self.colors
    }
}

impl ColorState {
    /// The state that holds `colors`.
    pub fn new(colors: Colors) -> (s: ColorState)
        ensures
            s@ == colors,
    {
        ColorState { colors }
    }

    /// The colors in force.
    pub fn get_colors(&self) -> (c: Colors)
        ensures
            c == self@,
    {
        self.colors
    }

    /// Replaces the foreground color.
    pub fn set_fg(&mut self, color: TermColor)
        ensures
            final(self)@ == (Colors { foreground: color, ..old(self)@ }),
    {
        self.colors = Colors { foreground: color, background: self.colors.background };
    }

    /// Replaces the background color.
    pub fn set_bg(&mut self, color: TermColor)
        ensures
            final(self)@ == (Colors { background: color, ..old(self)@ }),
    {
        self.colors = Colors { foreground: self.colors.foreground, background: color };
    }

    /// Sets both colors to the terminal's own defaults.
    pub fn reset(&mut self)
        ensures
            final(self)@ == (Colors { foreground: TermColor::Reset, background: TermColor::Reset }),
    {
        self.colors = Colors { foreground: TermColor::Reset, background: TermColor::Reset };
    }

    /// Applies a color that the terminal library has parsed, or none.
    pub fn apply_parsed(&mut self, parsed: Option<(AnsiLayer, TermColor)>)
        ensures
            final(self)@ == then_parsed(old(self)@, parsed),
    {
        match parsed {
            None => {},
            Some((AnsiLayer::Foreground, c)) => {
                self.colors = Colors { foreground: c, background: self.colors.background };
            },
            Some((AnsiLayer::Background, c)) => {
                self.colors = Colors { foreground: self.colors.foreground, background: c };
            },
            Some((AnsiLayer::Underline, c)) => {
                self.colors = Colors { foreground: self.colors.foreground, background: c };
            },
        }
    }

    /// Applies an extended color form given as text, such as `38;5;202`. A
    /// text that the terminal library does not read as a color changes nothing.
    pub fn set_colors(&mut self, ascii_str: &str)
        ensures
            final(self)@ == then_parsed(old(self)@, ansi_colored(ascii_str@)),
    {
        let parsed = parse_ansi(ascii_str);
        self.apply_parsed(parsed);
    }
}

} // verus!
