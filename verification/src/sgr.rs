//! The graphics-mode processor: it reads the parameters of a control sequence
//! that ends in `m` and updates the active colors and attributes.

use vstd::prelude::*;
use vstd::slice::slice_subrange;
use vstd::utf8::{decode_utf8, valid_utf8};
use crate::ascii::{byte_is_digit, is_digit, BK, ESC, SEP};
use crate::color_state::{then_parsed, ColorState};
use crate::style::{Attribute, Attributes, Colors, TermColor};
use crate::terminal::ansi_colored;

verus! {

/// The final byte `m` of a graphics sequence.
pub const GRAPHICS: u8 = 0x6D;

/// Colors and attributes together: what the processor reads and updates.
#[derive(Debug, Clone, Copy, PartialEq, Eq, Structural)]
pub struct Style {
    pub colors: Colors,
    pub attrs: Attributes,
}

/// The style made of `colors` and `attrs`.
pub open spec fn style_of(colors: Colors, attrs: Attributes) -> Style {
    Style { colors, attrs }
}

/// Whether `seq` is `ESC [ ... m`.
pub open spec fn is_graphics(seq: Seq<u8>) -> bool {
    seq.len() >= 3 && seq[0] == ESC && seq[1] == BK && seq.last() == GRAPHICS
}

/// Tells whether `seq` is a graphics sequence, `ESC [ ... m`.
pub fn is_graphics_seq(seq: &[u8]) -> (r: bool)
    ensures
        r == is_graphics(seq@),
{
    seq.len() >= 3 && seq[0] == ESC && seq[1] == BK && seq[seq.len() - 1] == GRAPHICS
}

/// The bytes between `ESC [` and the final byte.
pub open spec fn body_of(seq: Seq<u8>) -> Seq<u8> {
    seq.subrange(2, seq.len() - 1)
}

/// Where the parameter that starts at `pos` ends: at the next separator, or
/// at the end of `body`.
pub open spec fn param_end(body: Seq<u8>, pos: int) -> int
    decreases body.len() - pos,
{
    if 0 <= pos < body.len() && body[pos] != SEP {
        param_end(body, pos + 1)
    } else {
        pos
    }
}

/// The parameter that starts at `pos`.
pub open spec fn param_at(body: Seq<u8>, pos: int) -> Seq<u8> {
    body.subrange(pos, param_end(body, pos))
}

/// The value of a decimal digit.
pub open spec fn digit_value(b: u8) -> nat {
    (b - 0x30) as nat
}

/// The number that `part` writes, if `part` is a decimal numeral of one to
/// three digits with no needless leading zero.
pub open spec fn param_number(part: Seq<u8>) -> Option<nat> {
    if part.len() == 1 && is_digit(part[0]) {
        Some(digit_value(part[0]))
    } else if part.len() == 2 && is_digit(part[0]) && part[0] != 0x30 && is_digit(part[1]) {
        Some(10 * digit_value(part[0]) + digit_value(part[1]))
    } else if part.len() == 3 && is_digit(part[0]) && part[0] != 0x30 && is_digit(part[1])
        && is_digit(part[2]) {
        Some(100 * digit_value(part[0]) + 10 * digit_value(part[1]) + digit_value(part[2]))
    } else {
        None
    }
}

/// The eight basic colors, in the order of the parameters 30 to 37.
pub open spec fn basic_color(i: nat) -> TermColor {
    if i == 0 {
        TermColor::Black
    } else if i == 1 {
        TermColor::DarkRed
    } else if i == 2 {
        TermColor::DarkGreen
    } else if i == 3 {
        TermColor::DarkYellow
    } else if i == 4 {
        TermColor::DarkBlue
    } else if i == 5 {
        TermColor::DarkMagenta
    } else if i == 6 {
        TermColor::DarkCyan
    } else {
        TermColor::Grey
    }
}

/// The eight bright colors, in the order of the parameters 90 to 97.
pub open spec fn bright_color(i: nat) -> TermColor {
    if i == 0 {
        TermColor::DarkGrey
    } else if i == 1 {
        TermColor::Red
    } else if i == 2 {
        TermColor::Green
    } else if i == 3 {
        TermColor::Yellow
    } else if i == 4 {
        TermColor::Blue
    } else if i == 5 {
        TermColor::Magenta
    } else if i == 6 {
        TermColor::Cyan
    } else {
        TermColor::White
    }
}

/// What one plain parameter asks for.
#[derive(Debug, Clone, Copy, PartialEq, Eq, Structural)]
pub enum SgrEffect {
    /// Back to the configured colors and no attribute.
    ResetAll,
    /// Add an attribute.
    Add(Attribute),
    /// Replace the foreground color.
    Foreground(TermColor),
    /// Replace the background color.
    Background(TermColor),
    /// Nothing: the parameter is not recognized.
    Nothing,
}

/// The attribute that the numeric parameter `n` sets, if it sets one.
pub open spec fn attribute_of_number(n: nat) -> Option<Attribute> {
    if n == 1 {
        Some(Attribute::Bold)
    } else if n == 2 {
        Some(Attribute::Dim)
    } else if n == 3 {
        Some(Attribute::Italic)
    } else if n == 4 {
        Some(Attribute::Underlined)
    } else if n == 5 {
        Some(Attribute::SlowBlink)
    } else if n == 6 {
        Some(Attribute::RapidBlink)
    } else if n == 7 {
        Some(Attribute::Reverse)
    } else if n == 8 {
        Some(Attribute::Hidden)
    } else if n == 9 {
        Some(Attribute::CrossedOut)
    } else if n == 20 {
        Some(Attribute::Fraktur)
    } else if n == 21 {
        Some(Attribute::NoBold)
    } else if n == 22 {
        Some(Attribute::NormalIntensity)
    } else if n == 23 {
        Some(Attribute::NoItalic)
    } else if n == 24 {
        Some(Attribute::NoUnderline)
    } else if n == 25 {
        Some(Attribute::NoBlink)
    } else if n == 27 {
        Some(Attribute::NoReverse)
    } else if n == 28 {
        Some(Attribute::NoHidden)
    } else if n == 29 {
        Some(Attribute::NotCrossedOut)
    } else if n == 51 {
        Some(Attribute::Framed)
    } else if n == 52 {
        Some(Attribute::Encircled)
    } else if n == 53 {
        Some(Attribute::OverLined)
    } else if n == 54 {
        Some(Attribute::NotFramedOrEncircled)
    } else if n == 55 {
        Some(Attribute::NotOverLined)
    } else {
        None
    }
}

/// What the numeric parameter `n` asks for.
pub open spec fn effect_of_number(n: nat) -> SgrEffect {
    if n == 0 {
        SgrEffect::ResetAll
    } else if attribute_of_number(n) is Some {
        SgrEffect::Add(attribute_of_number(n)->0)
    } else if 30 <= n <= 37 {
        SgrEffect::Foreground(basic_color((n - 30) as nat))
    } else if n == 39 {
        SgrEffect::Foreground(TermColor::Reset)
    } else if 40 <= n <= 47 {
        SgrEffect::Background(basic_color((n - 40) as nat))
    } else if n == 49 {
        SgrEffect::Background(TermColor::Reset)
    } else if 90 <= n <= 97 {
        SgrEffect::Foreground(bright_color((n - 90) as nat))
    } else if 100 <= n <= 107 {
        SgrEffect::Background(bright_color((n - 100) as nat))
    } else {
        SgrEffect::Nothing
    }
}

/// The underline style that `part` asks for, if `part` is `4:2` to `4:5`.
pub open spec fn underline_style(part: Seq<u8>) -> Option<Attribute> {
    if part.len() == 3 && part[0] == 0x34 && part[1] == 0x3A {
        if part[2] == 0x32 {
            Some(Attribute::DoubleUnderlined)
        } else if part[2] == 0x33 {
            Some(Attribute::Undercurled)
        } else if part[2] == 0x34 {
            Some(Attribute::Underdotted)
        } else if part[2] == 0x35 {
            Some(Attribute::Underdashed)
        } else {
            None
        }
    } else {
        None
    }
}

/// What the plain parameter `part` asks for.
pub open spec fn param_effect(part: Seq<u8>) -> SgrEffect {
    match param_number(part) {
        Some(n) => effect_of_number(n),
        None => match underline_style(part) {
            Some(a) => SgrEffect::Add(a),
            None => SgrEffect::Nothing,
        },
    }
}

/// The style after `effect`, where `defaults` are the configured colors.
pub open spec fn apply_effect(style: Style, effect: SgrEffect, defaults: Colors) -> Style {
    match effect {
        SgrEffect::ResetAll => Style { colors: defaults, attrs: Attributes::empty() },
        SgrEffect::Add(a) => Style { attrs: style.attrs.plus(a), ..style },
        SgrEffect::Foreground(c) => Style {
            colors: Colors { foreground: c, ..style.colors },
            ..style
        },
        SgrEffect::Background(c) => Style {
            colors: Colors { background: c, ..style.colors },
            ..style
        },
        SgrEffect::Nothing => style,
    }
}

/// Whether `part` is `38` or `48`, the parameters that open an extended color form.
pub open spec fn is_color_intro(part: Seq<u8>) -> bool {
    part.len() == 2 && (part[0] == 0x33 || part[0] == 0x34) && part[1] == 0x38
}

/// The colors after the extended form `text` is applied to `colors`: what the
/// terminal library reads from the text, if the bytes are text at all.
pub open spec fn then_text(colors: Colors, text: Seq<u8>) -> Colors {
    if valid_utf8(text) {
        then_parsed(colors, ansi_colored(decode_utf8(text)))
    } else {
        colors
    }
}

/// Where the parameter after the one that ends at `end` starts, if there is one.
pub open spec fn next_param(body: Seq<u8>, end: int) -> Option<int> {
    if end < body.len() {
        Some(end + 1)
    } else {
        None
    }
}

/// One step of the processor at the parameter that starts at `pos`: the start
/// of the parameter to go on with, if any, and the style after the step.
///
/// A plain parameter is applied. `38` or `48` followed by `5` takes one more
/// parameter, followed by `2` three more, and hands the whole form to the
/// terminal library; where the body ends before the form is complete, the form
/// is dropped and processing ends. `38` or `48` followed by anything else is
/// passed over.
pub open spec fn sgr_step(body: Seq<u8>, pos: int, style: Style, defaults: Colors) -> (
    Option<int>,
    Style,
) {
    let e = param_end(body, pos);
    let part = body.subrange(pos, e);
    if is_color_intro(part) {
        if e < body.len() && param_at(body, e + 1) == seq![0x35u8] {
            let e1 = param_end(body, e + 1);
            if e1 >= body.len() {
                (None, style)
            } else {
                let e2 = param_end(body, e1 + 1);
                (
                    next_param(body, e2),
                    Style { colors: then_text(style.colors, body.subrange(pos, e2)), ..style },
                )
            }
        } else if e < body.len() && param_at(body, e + 1) == seq![0x32u8] {
            let e1 = param_end(body, e + 1);
            if e1 >= body.len() {
                (None, style)
            } else {
                let er = param_end(body, e1 + 1);
                if er >= body.len() {
                    (None, style)
                } else {
                    let eg = param_end(body, er + 1);
                    if eg >= body.len() {
                        (None, style)
                    } else {
                        let eb = param_end(body, eg + 1);
                        (
                            next_param(body, eb),
                            Style {
                                colors: then_text(style.colors, body.subrange(pos, eb)),
                                ..style
                            },
                        )
                    }
                }
            }
        } else {
            (next_param(body, e), style)
        }
    } else {
        (next_param(body, e), apply_effect(style, param_effect(part), defaults))
    }
}

/// The style after all parameters of `body` from the one that starts at `pos`.
pub open spec fn sgr_from(body: Seq<u8>, pos: int, style: Style, defaults: Colors) -> Style
    decreases body.len() - pos,
{
    let (next, after) = sgr_step(body, pos, style, defaults);
    match next {
        Some(n) => if pos < n <= body.len() {
            sgr_from(body, n, after, defaults)
        } else {
            after
        },
        None => after,
    }
}

/// The style after the graphics sequence `seq`, where `defaults` are the
/// configured colors.
pub open spec fn sgr(seq: Seq<u8>, style: Style, defaults: Colors) -> Style {
    sgr_from(body_of(seq), 0, style, defaults)
}

/// A parameter ends at or after its start and within the body, at a separator
/// or at the end, and holds no separator.
pub proof fn lemma_param_end(body: Seq<u8>, pos: int)
    requires
        0 <= pos <= body.len(),
    ensures
        pos <= param_end(body, pos) <= body.len(),
        param_end(body, pos) < body.len() ==> body[param_end(body, pos)] == SEP,
        forall|i: int| pos <= i < param_end(body, pos) ==> body[i] != SEP,
    decreases body.len() - pos,
{
    if pos < body.len() && body[pos] != SEP {
        lemma_param_end(body, pos + 1);
    }
}

/// `std::str::from_utf8` turns bytes into text where they are valid UTF-8,
/// and into nothing where they are not.
#[verifier::external_body]
fn text_of(bytes: &[u8]) -> (r: Option<&str>)
    ensures
        r is Some <==> valid_utf8(bytes@),
        r is Some ==> r->0@ == decode_utf8(bytes@),
{
    std::str::from_utf8(bytes).ok()
}

/// Finds the end of the parameter that starts at `pos`.
pub(crate) fn find_param_end(body: &[u8], pos: usize) -> (e: usize)
    requires
        pos <= body@.len(),
    ensures
        e == param_end(body@, pos as int),
        pos <= e <= body@.len(),
{
    let mut e = pos;
    while e < body.len() && body[e] != SEP
        invariant
            pos <= e <= body@.len(),
            param_end(body@, e as int) == param_end(body@, pos as int),
        decreases body@.len() - e,
    {
        e = e + 1;
    }
    e
}

/// Reads the parameter `body[start..end]` as a number.
fn read_number(body: &[u8], start: usize, end: usize) -> (r: Option<u16>)
    requires
        start <= end <= body@.len(),
    ensures
        match r {
            Some(n) => param_number(body@.subrange(start as int, end as int)) == Some(n as nat),
            None => param_number(body@.subrange(start as int, end as int)) is None,
        },
{
    let len = end - start;
    if len == 1 && byte_is_digit(body[start]) {
        Some((body[start] - 0x30) as u16)
    } else if len == 2 && byte_is_digit(body[start]) && body[start] != 0x30 && byte_is_digit(
        body[start + 1],
    ) {
        Some(10 * ((body[start] - 0x30) as u16) + (body[start + 1] - 0x30) as u16)
    } else if len == 3 && byte_is_digit(body[start]) && body[start] != 0x30 && byte_is_digit(
        body[start + 1],
    ) && byte_is_digit(body[start + 2]) {
        Some(
            100 * ((body[start] - 0x30) as u16) + 10 * ((body[start + 1] - 0x30) as u16) + (
            body[start + 2] - 0x30) as u16,
        )
    } else {
        None
    }
}

/// Picks one of the eight basic colors.
fn pick_basic(i: u16) -> (c: TermColor)
    requires
        i < 8,
    ensures
        c == basic_color(i as nat),
{
    if i == 0 {
        TermColor::Black
    } else if i == 1 {
        TermColor::DarkRed
    } else if i == 2 {
        TermColor::DarkGreen
    } else if i == 3 {
        TermColor::DarkYellow
    } else if i == 4 {
        TermColor::DarkBlue
    } else if i == 5 {
        TermColor::DarkMagenta
    } else if i == 6 {
        TermColor::DarkCyan
    } else {
        TermColor::Grey
    }
}

/// Picks one of the eight bright colors.
fn pick_bright(i: u16) -> (c: TermColor)
    requires
        i < 8,
    ensures
        c == bright_color(i as nat),
{
    if i == 0 {
        TermColor::DarkGrey
    } else if i == 1 {
        TermColor::Red
    } else if i == 2 {
        TermColor::Green
    } else if i == 3 {
        TermColor::Yellow
    } else if i == 4 {
        TermColor::Blue
    } else if i == 5 {
        TermColor::Magenta
    } else if i == 6 {
        TermColor::Cyan
    } else {
        TermColor::White
    }
}

/// Finds the attribute that a numeric parameter sets.
fn pick_attribute(n: u16) -> (r: Option<Attribute>)
    ensures
        r == attribute_of_number(n as nat),
{
    match n {
        1 => Some(Attribute::Bold),
        2 => Some(Attribute::Dim),
        3 => Some(Attribute::Italic),
        4 => Some(Attribute::Underlined),
        5 => Some(Attribute::SlowBlink),
        6 => Some(Attribute::RapidBlink),
        7 => Some(Attribute::Reverse),
        8 => Some(Attribute::Hidden),
        9 => Some(Attribute::CrossedOut),
        20 => Some(Attribute::Fraktur),
        21 => Some(Attribute::NoBold),
        22 => Some(Attribute::NormalIntensity),
        23 => Some(Attribute::NoItalic),
        24 => Some(Attribute::NoUnderline),
        25 => Some(Attribute::NoBlink),
        27 => Some(Attribute::NoReverse),
        28 => Some(Attribute::NoHidden),
        29 => Some(Attribute::NotCrossedOut),
        51 => Some(Attribute::Framed),
        52 => Some(Attribute::Encircled),
        53 => Some(Attribute::OverLined),
        54 => Some(Attribute::NotFramedOrEncircled),
        55 => Some(Attribute::NotOverLined),
        _ => None,
    }
}

/// Finds what a numeric parameter asks for.
pub fn effect_for_number(n: u16) -> (e: SgrEffect)
    ensures
        e == effect_of_number(n as nat),
{
    if n == 0 {
        return SgrEffect::ResetAll;
    }
    match pick_attribute(n) {
        Some(a) => SgrEffect::Add(a),
        None => {
            if 30 <= n && n <= 37 {
                SgrEffect::Foreground(pick_basic(n - 30))
            } else if n == 39 {
                SgrEffect::Foreground(TermColor::Reset)
            } else if 40 <= n && n <= 47 {
                SgrEffect::Background(pick_basic(n - 40))
            } else if n == 49 {
                SgrEffect::Background(TermColor::Reset)
            } else if 90 <= n && n <= 97 {
                SgrEffect::Foreground(pick_bright(n - 90))
            } else if 100 <= n && n <= 107 {
                SgrEffect::Background(pick_bright(n - 100))
            } else {
                SgrEffect::Nothing
            }
        },
    }
}

/// Finds what the plain parameter `body[start..end]` asks for.
fn effect_for_param(body: &[u8], start: usize, end: usize) -> (e: SgrEffect)
    requires
        start <= end <= body@.len(),
    ensures
        e == param_effect(body@.subrange(start as int, end as int)),
{
    match read_number(body, start, end) {
        Some(n) => effect_for_number(n),
        None => {
            if end - start == 3 && body[start] == 0x34 && body[start + 1] == 0x3A {
                let k = body[start + 2];
                if k == 0x32 {
                    SgrEffect::Add(Attribute::DoubleUnderlined)
                } else if k == 0x33 {
                    SgrEffect::Add(Attribute::Undercurled)
                } else if k == 0x34 {
                    SgrEffect::Add(Attribute::Underdotted)
                } else if k == 0x35 {
                    SgrEffect::Add(Attribute::Underdashed)
                } else {
                    SgrEffect::Nothing
                }
            } else {
                SgrEffect::Nothing
            }
        },
    }
}

/// Applies what one plain parameter asks for to the active colors and attributes.
pub fn apply(effect: SgrEffect, color_state: &mut ColorState, attrs: &mut Attributes, defaults: Colors)
    ensures
        style_of(final(color_state)@, *final(attrs)) == apply_effect(
            style_of(old(color_state)@, *old(attrs)),
            effect,
            defaults,
        ),
{
    match effect {
        SgrEffect::ResetAll => {
            *color_state = ColorState::new(defaults);
            *attrs = Attributes::none();
        },
        SgrEffect::Add(a) => {
            attrs.set(a);
        },
        SgrEffect::Foreground(c) => {
            color_state.set_fg(c);
        },
        SgrEffect::Background(c) => {
            color_state.set_bg(c);
        },
        SgrEffect::Nothing => {},
    }
}

/// Applies one plain parameter, such as `1` or `31` or `4:3`, to the active
/// colors and attributes. A parameter that is not recognized changes nothing.
pub fn handle_colors_and_attrs(
    body: &[u8],
    color_state: &mut ColorState,
    attrs: &mut Attributes,
    defaults: Colors,
)
    ensures
        style_of(final(color_state)@, *final(attrs)) == apply_effect(
            style_of(old(color_state)@, *old(attrs)),
            param_effect(body@),
            defaults,
        ),
{
    let effect = effect_for_param(body, 0, body.len());
    apply(effect, color_state, attrs, defaults);
}

/// Tells whether the parameter `body[start..end]` is the single byte `b`.
fn param_is(body: &[u8], start: usize, end: usize, b: u8) -> (r: bool)
    requires
        start <= end <= body@.len(),
    ensures
        r == (body@.subrange(start as int, end as int) == seq![b]),
{
    let ghost part = body@.subrange(start as int, end as int);
    if end - start == 1 {
        assert(part[0] == body@[start as int]);
        if body[start] == b {
            assert(part =~= seq![b]);
            true
        } else {
            false
        }
    } else {
        assert(seq![b].len() == 1);
        false
    }
}

/// Hands the extended form `body[start..end]` to the terminal library and
/// applies what it reads.
fn apply_extended(body: &[u8], start: usize, end: usize, color_state: &mut ColorState)
    requires
        start <= end <= body@.len(),
    ensures
        final(color_state)@ == then_text(
            old(color_state)@,
            body@.subrange(start as int, end as int),
        ),
{
    let form = slice_subrange(body, start, end);
    match text_of(form) {
        Some(text) => {
            color_state.set_colors(text);
        },
        None => {},
    }
}

/// One step of the processor at the parameter that starts at `pos`.
fn advance(
    body: &[u8],
    pos: usize,
    color_state: &mut ColorState,
    attrs: &mut Attributes,
    defaults: Colors,
) -> (next: Option<usize>)
    requires
        pos <= body@.len(),
    ensures
        sgr_step(body@, pos as int, style_of(old(color_state)@, *old(attrs)), defaults) == (
            match next {
                Some(n) => Some(n as int),
                None => None::<int>,
            },
            style_of(final(color_state)@, *final(attrs)),
        ),
        next matches Some(n) ==> pos < n <= body@.len(),
{
    let len = body.len();
    let e = find_param_end(body, pos);
    let intro = e - pos == 2 && (body[pos] == 0x33 || body[pos] == 0x34) && body[pos + 1] == 0x38;
    if intro {
        let e1 = if e < len {
            find_param_end(body, e + 1)
        } else {
            e
        };
        if e < len && param_is(body, e + 1, e1, 0x35) {
            if e1 >= len {
                None
            } else {
                let e2 = find_param_end(body, e1 + 1);
                apply_extended(body, pos, e2, color_state);
                if e2 < len {
                    Some(e2 + 1)
                } else {
                    None
                }
            }
        } else if e < len && param_is(body, e + 1, e1, 0x32) {
            if e1 >= len {
                None
            } else {
                let er = find_param_end(body, e1 + 1);
                if er >= len {
                    None
                } else {
                    let eg = find_param_end(body, er + 1);
                    if eg >= len {
                        None
                    } else {
                        let eb = find_param_end(body, eg + 1);
                        apply_extended(body, pos, eb, color_state);
                        if eb < len {
                            Some(eb + 1)
                        } else {
                            None
                        }
                    }
                }
            }
        } else {
            if e < len {
                Some(e + 1)
            } else {
                None
            }
        }
    } else {
        let effect = effect_for_param(body, pos, e);
        apply(effect, color_state, attrs, defaults);
        if e < len {
            Some(e + 1)
        } else {
            None
        }
    }
}

/// Processes the graphics sequence `seq` and updates the active colors and
/// attributes; `defaults` are the configured colors, to which the parameter
/// `0` returns.
pub fn process_colors(
    seq: &[u8],
    color_state: &mut ColorState,
    attrs: &mut Attributes,
    defaults: Colors,
)
    requires
        is_graphics(seq@),
    ensures
        style_of(final(color_state)@, *final(attrs)) == sgr(
            seq@,
            style_of(old(color_state)@, *old(attrs)),
            defaults,
        ),
{
    let body = slice_subrange(seq, 2, seq.len() - 1);
    let ghost target = sgr(seq@, style_of(color_state@, *attrs), defaults);
    let mut pos: usize = 0;
    let mut more = true;
    while more
        invariant
            pos <= body@.len(),
            more ==> sgr_from(body@, pos as int, style_of(color_state@, *attrs), defaults)
                == target,
            !more ==> style_of(color_state@, *attrs) == target,
        decreases body@.len() - pos + (if more { 1int } else { 0int }),
    {
        match advance(body, pos, color_state, attrs, defaults) {
            Some(n) => {
                pos = n;
            },
            None => {
                more = false;
            },
        }
    }
}

/// `ESC [ 0 m` returns to the configured colors and to no attribute, whatever
/// the style was before.
pub proof fn lemma_reset_sequence(style: Style, defaults: Colors)
    ensures
        sgr(seq![ESC, BK, 0x30u8, GRAPHICS], style, defaults) == (Style {
            colors: defaults,
            attrs: Attributes::empty(),
        }),
        is_graphics(seq![ESC, BK, 0x30u8, GRAPHICS]),
{
    reveal_with_fuel(param_end, 3);
}

} // verus!
