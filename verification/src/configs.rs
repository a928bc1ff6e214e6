//! The configuration that a session reads: colors and defaults.

use vstd::prelude::*;
use vstd::string::*;
use crate::style::{Colors, TermColor};
use crate::text::{lowercased, push_char, same_text, to_lowercase};

verus! {

/// A color that the configuration can name.
#[derive(Debug, PartialEq, Clone, Copy, Eq, Structural)]
pub enum SeriColor {
    Black,
    Blue,
    Cyan,
    DarkBlue,
    DarkCyan,
    DarkGreen,
    DarkGrey,
    DarkMagenta,
    DarkRed,
    DarkYellow,
    Green,
    Grey,
    Magenta,
    /// The terminal's own default color, written `default`.
    Reset,
    Red,
    White,
    Yellow,
}

impl SeriColor {
    /// The color of the terminal that this color stands for.
    pub open spec fn term_color(self) -> TermColor {
        match self {
            SeriColor::Black => TermColor::Black,
            SeriColor::Blue => TermColor::Blue,
            SeriColor::Cyan => TermColor::Cyan,
            SeriColor::DarkBlue => TermColor::DarkBlue,
            SeriColor::DarkCyan => TermColor::DarkCyan,
            SeriColor::DarkGreen => TermColor::DarkGreen,
            SeriColor::DarkGrey => TermColor::DarkGrey,
            SeriColor::DarkMagenta => TermColor::DarkMagenta,
            SeriColor::DarkRed => TermColor::DarkRed,
            SeriColor::DarkYellow => TermColor::DarkYellow,
            SeriColor::Green => TermColor::Green,
            SeriColor::Grey => TermColor::Grey,
            SeriColor::Magenta => TermColor::Magenta,
            SeriColor::Reset => TermColor::Reset,
            SeriColor::Red => TermColor::Red,
            SeriColor::White => TermColor::White,
            SeriColor::Yellow => TermColor::Yellow,
        }
    }

    /// Gives the color of the terminal that this color stands for.
    pub fn color(&self) -> (c: TermColor)
        ensures
            c == self.term_color(),
    {
        match self {
            SeriColor::Black => TermColor::Black,
            SeriColor::Blue => TermColor::Blue,
            SeriColor::Cyan => TermColor::Cyan,
            SeriColor::DarkBlue => TermColor::DarkBlue,
            SeriColor::DarkCyan => TermColor::DarkCyan,
            SeriColor::DarkGreen => TermColor::DarkGreen,
            SeriColor::DarkGrey => TermColor::DarkGrey,
            SeriColor::DarkMagenta => TermColor::DarkMagenta,
            SeriColor::DarkRed => TermColor::DarkRed,
            SeriColor::DarkYellow => TermColor::DarkYellow,
            SeriColor::Green => TermColor::Green,
            SeriColor::Grey => TermColor::Grey,
            SeriColor::Magenta => TermColor::Magenta,
            SeriColor::Reset => TermColor::Reset,
            SeriColor::Red => TermColor::Red,
            SeriColor::White => TermColor::White,
            SeriColor::Yellow => TermColor::Yellow,
        }
    }

    /// Reads the name of a color after `normalizer` has brought it into
    /// its normalized form; [`normalizer`] is the one that the configuration
    /// and the command line use. A name that is not known is an error that
    /// holds the names that are.
    pub fn parse_from_str<F: Fn(&str) -> String>(input: &str, normalizer: F) -> (r: Result<
        SeriColor,
        Vec<&'static str>,
    >)
        requires
            call_requires(normalizer, (input,)),
        ensures
            exists|name: String| #[trigger]
                call_ensures(normalizer, (input,), name) && parsed_as(name@, r),
    {
        let name = normalizer(input);
        match SeriColor::parse_normalized(name.as_str()) {
            Some(c) => {
                Ok(c)
            },
            None => {
                let names = valid_sericolors();
                Err(names)
            },
        }
    }

    /// Reads the name of a color that is written in lower case without
    /// hyphens and underscores.
    pub fn parse_normalized(name: &str) -> (r: Option<SeriColor>)
        ensures
            r == color_of_name(name@),
    {
        if same_text(name, "black") {
            Some(SeriColor::Black)
        } else if same_text(name, "blue") {
            Some(SeriColor::Blue)
        } else if same_text(name, "cyan") {
            Some(SeriColor::Cyan)
        } else if same_text(name, "darkblue") {
            Some(SeriColor::DarkBlue)
        } else if same_text(name, "darkcyan") {
            Some(SeriColor::DarkCyan)
        } else if same_text(name, "darkgreen") {
            Some(SeriColor::DarkGreen)
        } else if same_text(name, "darkgrey") || same_text(name, "darkgray") {
            Some(SeriColor::DarkGrey)
        } else if same_text(name, "darkmagenta") {
            Some(SeriColor::DarkMagenta)
        } else if same_text(name, "darkred") {
            Some(SeriColor::DarkRed)
        } else if same_text(name, "darkyellow") {
            Some(SeriColor::DarkYellow)
        } else if same_text(name, "default") {
            Some(SeriColor::Reset)
        } else if same_text(name, "green") {
            Some(SeriColor::Green)
        } else if same_text(name, "grey") || same_text(name, "gray") {
            Some(SeriColor::Grey)
        } else if same_text(name, "magenta") {
            Some(SeriColor::Magenta)
        } else if same_text(name, "red") {
            Some(SeriColor::Red)
        } else if same_text(name, "white") {
            Some(SeriColor::White)
        } else if same_text(name, "yellow") {
            Some(SeriColor::Yellow)
        } else {
            None
        }
    }
}

/// Whether `r` is what reading the normalized name `name` gives: the color
/// that it names, or the names that are known where it names none.
pub open spec fn parsed_as(name: Seq<char>, r: Result<SeriColor, Vec<&'static str>>) -> bool {
    match r {
        Ok(c) => color_of_name(name) == Some(c),
        Err(names) => color_of_name(name) is None && names_are_valid(names@),
    }
}

/// Whether `names` are the names of the colors that the configuration can name.
pub open spec fn names_are_valid(names: Seq<&'static str>) -> bool {
    &&& names.len() == valid_names().len()
    &&& forall|i: int| 0 <= i < names.len() ==> (#[trigger] names[i])@ == valid_names()[i]
}

/// The color that the normalized name `name` names, if it names one.
pub open spec fn color_of_name(name: Seq<char>) -> Option<SeriColor> {
    if name == "black"@ {
        Some(SeriColor::Black)
    } else if name == "blue"@ {
        Some(SeriColor::Blue)
    } else if name == "cyan"@ {
        Some(SeriColor::Cyan)
    } else if name == "darkblue"@ {
        Some(SeriColor::DarkBlue)
    } else if name == "darkcyan"@ {
        Some(SeriColor::DarkCyan)
    } else if name == "darkgreen"@ {
        Some(SeriColor::DarkGreen)
    } else if name == "darkgrey"@ || name == "darkgray"@ {
        Some(SeriColor::DarkGrey)
    } else if name == "darkmagenta"@ {
        Some(SeriColor::DarkMagenta)
    } else if name == "darkred"@ {
        Some(SeriColor::DarkRed)
    } else if name == "darkyellow"@ {
        Some(SeriColor::DarkYellow)
    } else if name == "default"@ {
        Some(SeriColor::Reset)
    } else if name == "green"@ {
        Some(SeriColor::Green)
    } else if name == "grey"@ || name == "gray"@ {
        Some(SeriColor::Grey)
    } else if name == "magenta"@ {
        Some(SeriColor::Magenta)
    } else if name == "red"@ {
        Some(SeriColor::Red)
    } else if name == "white"@ {
        Some(SeriColor::White)
    } else if name == "yellow"@ {
        Some(SeriColor::Yellow)
    } else {
        None
    }
}

/// Whether `c` is a hyphen or an underscore.
pub open spec fn is_joiner(c: char) -> bool {
    c == '-' || c == '_'
}

/// Whether `c` is one of the letters `A` to `Z`.
pub open spec fn is_ascii_upper(c: char) -> bool {
    'A' <= c && c <= 'Z'
}

/// `s` without hyphens and underscores.
pub open spec fn unjoined(s: Seq<char>) -> Seq<char> {
    s.filter(|c: char| !is_joiner(c))
}

/// Whether `s` holds one of the letters `A` to `Z`.
pub open spec fn has_ascii_upper(s: Seq<char>) -> bool {
    exists|i: int| 0 <= i < s.len() && is_ascii_upper(#[trigger] s[i])
}

/// The normalized form of a name: without hyphens and underscores, and in
/// lower case if it held one of the letters `A` to `Z`.
pub open spec fn normalized(s: Seq<char>) -> Seq<char> {
    if has_ascii_upper(unjoined(s)) {
        lowercased(unjoined(s))
    } else {
        unjoined(s)
    }
}

/// Normalizes a name: hyphens and underscores go, and a name that holds one
/// of the letters `A` to `Z` is put in lower case.
pub fn normalizer(s: &str) -> (r: String)
    ensures
        r@ == normalized(s@),
{
    let n = s.unicode_len();
    let mut out = String::new();
    let mut upper = false;
    let mut i: usize = 0;
    while i < n
        invariant
            i <= n,
            n == s@.len(),
            out@ == unjoined(s@.take(i as int)),
            upper == has_ascii_upper(out@),
        decreases n - i,
    {
        let c = s.get_char(i);
        proof {
            reveal(Seq::filter);
            assert(s@.take(i + 1).drop_last() =~= s@.take(i as int));
        }
        let ghost before = out@;
        if c != '-' && c != '_' {
            push_char(&mut out, c);
            proof {
                if has_ascii_upper(before) {
                    let k = choose|k: int| 0 <= k < before.len() && is_ascii_upper(#[trigger] before[k]);
                    assert(is_ascii_upper(out@[k]));
                }
                if has_ascii_upper(out@) {
                    let k = choose|k: int| 0 <= k < out@.len() && is_ascii_upper(#[trigger] out@[k]);
                }
            }
            if 'A' <= c && c <= 'Z' {
                assert(is_ascii_upper(out@[out@.len() - 1]));
                upper = true;
            }
        }
        i = i + 1;
    }
    proof {
        assert(s@.take(n as int) =~= s@);
    }
    if upper {
        to_lowercase(out.as_str())
    } else {
        out
    }
}

/// The names of the colors that the configuration can name, as values.
pub open spec fn valid_names() -> Seq<Seq<char>> {
    seq![
        "black"@,
        "blue"@,
        "cyan"@,
        "dark-blue"@,
        "dark-cyan"@,
        "dark-green"@,
        "dark-grey"@,
        "dark-magenta"@,
        "dark-red"@,
        "dark-yellow"@,
        "default"@,
        "green"@,
        "grey"@,
        "magenta"@,
        "red"@,
        "white"@,
        "yellow"@,
    ]
}

/// The names of the colors that the configuration can name.
pub fn valid_sericolors() -> (names: Vec<&'static str>)
    ensures
        names_are_valid(names@),
{
    vec![
        "black",
        "blue",
        "cyan",
        "dark-blue",
        "dark-cyan",
        "dark-green",
        "dark-grey",
        "dark-magenta",
        "dark-red",
        "dark-yellow",
        "default",
        "green",
        "grey",
        "magenta",
        "red",
        "white",
        "yellow",
    ]
}

/// The colors of text and background.
#[derive(Debug, PartialEq, Clone, Copy, Eq, Structural)]
pub struct Appearance {
    /// The color of text.
    pub fg: SeriColor,
    /// The color of the background.
    pub bg: SeriColor,
}

/// The color of text where the configuration names none.
pub fn default_fg() -> (c: SeriColor)
    ensures
        c == SeriColor::Green,
{
    SeriColor::Green
}

/// The color of the background where the configuration names none.
pub fn default_bg() -> (c: SeriColor)
    ensures
        c == SeriColor::Reset,
{
    SeriColor::Reset
}

impl Default for Appearance {
    /// Green text on the terminal's own background.
    fn default() -> (a: Appearance)
        ensures
            a == (Appearance { fg: SeriColor::Green, bg: SeriColor::Reset }),
    {
        Appearance { fg: default_fg(), bg: default_bg() }
    }
}

/// Where files go and what runs after a session.
#[derive(Debug, PartialEq, Clone, Eq)]
pub struct Defaults {
    /// The directory that log files are created in.
    pub out_dir: String,
    /// The script that runs after a session that wrote a log file.
    pub exit_script: Option<String>,
}

/// The directory for log files where the configuration names none.
pub fn default_out_dir() -> (dir: String)
    ensures
        dir@ == "./"@,
{
    "./".to_owned()
}

impl Default for Defaults {
    /// The current directory and no exit script.
    fn default() -> (d: Defaults)
        ensures
            d.out_dir@ == "./"@,
            d.exit_script is None,
    {
        Defaults { out_dir: default_out_dir(), exit_script: None }
    }
}

/// The whole configuration.
#[derive(Debug, PartialEq, Clone, Eq)]
pub struct Config {
    pub appearance: Appearance,
    pub defaults: Defaults,
}

impl Default for Config {
    /// Green text on the terminal's own background, the current directory
    /// and no exit script.
    fn default() -> (c: Config)
        ensures
            c.appearance == (Appearance { fg: SeriColor::Green, bg: SeriColor::Reset }),
            c.defaults.out_dir@ == "./"@,
            c.defaults.exit_script is None,
    {
        Config { appearance: Appearance::default(), defaults: Defaults::default() }
    }
}

/// What the command line sets in place of the configuration's values.
#[derive(Debug, PartialEq, Clone, Eq)]
pub struct ConfigOverride {
    /// In place of the color of text.
    pub color: Option<SeriColor>,
    /// In place of the directory for log files.
    pub out_dir: Option<String>,
    /// In place of the exit script.
    pub exit_script: Option<String>,
}

impl Config {
    /// The colors that the session starts with and that a reset returns to.
    pub open spec fn term_colors(&self) -> Colors {
        Colors {
            foreground: self.appearance.fg.term_color(),
            background: self.appearance.bg.term_color(),
        }
    }

    /// Gives the colors that the session starts with.
    pub fn colors(&self) -> (c: Colors)
        ensures
            c == self.term_colors(),
    {
        Colors { foreground: self.appearance.fg.color(), background: self.appearance.bg.color() }
    }

    /// Puts the values that the command line sets in place of the
    /// configuration's; what the command line does not set stays.
    pub fn apply_overrides(&mut self, overrides: ConfigOverride)
        ensures
            final(self).appearance.bg == old(self).appearance.bg,
            final(self).appearance.fg == (match overrides.color {
                Some(c) => c,
                None => old(self).appearance.fg,
            }),
            final(self).defaults.out_dir == (match overrides.out_dir {
                Some(d) => d,
                None => old(self).defaults.out_dir,
            }),
            final(self).defaults.exit_script == (match overrides.exit_script {
                Some(s) => Some(s),
                None => old(self).defaults.exit_script,
            }),
    {
        if let Some(color) = overrides.color {
            self.appearance.fg = color;
        }
        if let Some(dir) = overrides.out_dir {
            self.defaults.out_dir = dir;
        }
        if let Some(script) = overrides.exit_script {
            self.defaults.exit_script = Some(script);
        }
    }
}

} // verus!
