//! Colors and text attributes: the style that a span of cells carries.

use vstd::prelude::*;

verus! {

/// A logical color of the terminal.
#[derive(Debug, Clone, Copy, PartialEq, Eq, Hash, Structural)]
pub enum TermColor {
    /// The terminal's own default color.
    Reset,
    Black,
    DarkGrey,
    Red,
    DarkRed,
    Green,
    DarkGreen,
    Yellow,
    DarkYellow,
    Blue,
    DarkBlue,
    Magenta,
    DarkMagenta,
    Cyan,
    DarkCyan,
    White,
    Grey,
    /// A 24-bit color.
    Rgb { r: u8, g: u8, b: u8 },
    /// An index into the 8-bit palette.
    AnsiValue(u8),
}

/// A foreground and a background color.
#[derive(Debug, Clone, Copy, PartialEq, Eq, Hash, Structural)]
pub struct Colors {
    pub foreground: TermColor,
    pub background: TermColor,
}

impl Colors {
    /// The pair of `foreground` and `background`.
    pub fn new(foreground: TermColor, background: TermColor) -> (c: Colors)
        ensures
            c.foreground == foreground,
            c.background == background,
    {
        Colors { foreground, background }
    }

    /// The pair with foreground and background exchanged.
    pub open spec fn swapped(self) -> Colors {
        Colors { foreground: self.background, background: self.foreground }
    }

    /// Exchanges foreground and background.
    pub fn swap(self) -> (c: Colors)
        ensures
            c == self.swapped(),
    {
        Colors { foreground: self.background, background: self.foreground }
    }
}

/// One text attribute of the graphics mode, or the explicit negation of one.
#[derive(Debug, Clone, Copy, PartialEq, Eq, Hash, Structural)]
pub enum Attribute {
    Bold,
    Dim,
    Italic,
    Underlined,
    DoubleUnderlined,
    Undercurled,
    Underdotted,
    Underdashed,
    SlowBlink,
    RapidBlink,
    Reverse,
    Hidden,
    CrossedOut,
    Fraktur,
    NoBold,
    NormalIntensity,
    NoItalic,
    NoUnderline,
    NoBlink,
    NoReverse,
    NoHidden,
    NotCrossedOut,
    Framed,
    Encircled,
    OverLined,
    NotFramedOrEncircled,
    NotOverLined,
}

impl Attribute {
    /// The position of the attribute's bit in a packed set.
    pub open spec fn index(self) -> u32 {
        match self {
            Attribute::Bold => 0,
            Attribute::Dim => 1,
            Attribute::Italic => 2,
            Attribute::Underlined => 3,
            Attribute::DoubleUnderlined => 4,
            Attribute::Undercurled => 5,
            Attribute::Underdotted => 6,
            Attribute::Underdashed => 7,
            Attribute::SlowBlink => 8,
            Attribute::RapidBlink => 9,
            Attribute::Reverse => 10,
            Attribute::Hidden => 11,
            Attribute::CrossedOut => 12,
            Attribute::Fraktur => 13,
            Attribute::NoBold => 14,
            Attribute::NormalIntensity => 15,
            Attribute::NoItalic => 16,
            Attribute::NoUnderline => 17,
            Attribute::NoBlink => 18,
            Attribute::NoReverse => 19,
            Attribute::NoHidden => 20,
            Attribute::NotCrossedOut => 21,
            Attribute::Framed => 22,
            Attribute::Encircled => 23,
            Attribute::OverLined => 24,
            Attribute::NotFramedOrEncircled => 25,
            Attribute::NotOverLined => 26,
        }
    }

    /// Computes the position of the attribute's bit.
    pub fn position(self) -> (i: u32)
        ensures
            i == self.index(),
            i < 27,
    {
        match self {
            Attribute::Bold => 0,
            Attribute::Dim => 1,
            Attribute::Italic => 2,
            Attribute::Underlined => 3,
            Attribute::DoubleUnderlined => 4,
            Attribute::Undercurled => 5,
            Attribute::Underdotted => 6,
            Attribute::Underdashed => 7,
            Attribute::SlowBlink => 8,
            Attribute::RapidBlink => 9,
            Attribute::Reverse => 10,
            Attribute::Hidden => 11,
            Attribute::CrossedOut => 12,
            Attribute::Fraktur => 13,
            Attribute::NoBold => 14,
            Attribute::NormalIntensity => 15,
            Attribute::NoItalic => 16,
            Attribute::NoUnderline => 17,
            Attribute::NoBlink => 18,
            Attribute::NoReverse => 19,
            Attribute::NoHidden => 20,
            Attribute::NotCrossedOut => 21,
            Attribute::Framed => 22,
            Attribute::Encircled => 23,
            Attribute::OverLined => 24,
            Attribute::NotFramedOrEncircled => 25,
            Attribute::NotOverLined => 26,
        }
    }
}

/// All attributes, each at the position of its bit.
pub fn all_attributes() -> (list: Vec<Attribute>)
    ensures
        list@.len() == 27,
        forall|a: Attribute| list@[a.index() as int] == a,
{
    let list = vec![
        Attribute::Bold,
        Attribute::Dim,
        Attribute::Italic,
        Attribute::Underlined,
        Attribute::DoubleUnderlined,
        Attribute::Undercurled,
        Attribute::Underdotted,
        Attribute::Underdashed,
        Attribute::SlowBlink,
        Attribute::RapidBlink,
        Attribute::Reverse,
        Attribute::Hidden,
        Attribute::CrossedOut,
        Attribute::Fraktur,
        Attribute::NoBold,
        Attribute::NormalIntensity,
        Attribute::NoItalic,
        Attribute::NoUnderline,
        Attribute::NoBlink,
        Attribute::NoReverse,
        Attribute::NoHidden,
        Attribute::NotCrossedOut,
        Attribute::Framed,
        Attribute::Encircled,
        Attribute::OverLined,
        Attribute::NotFramedOrEncircled,
        Attribute::NotOverLined,
    ];
    list
}

/// Different attributes have different bit positions, all below 27.
pub proof fn lemma_index_injective(a: Attribute, b: Attribute)
    ensures
        a.index() < 27,
        a.index() == b.index() ==> a == b,
{
}

/// Whether bit `i` of `bits` is set.
pub open spec fn bit_set(bits: u32, i: u32) -> bool {
    bits & (1u32 << i) != 0
}

/// A set of attributes, packed into one word.
#[derive(Debug, Clone, Copy, PartialEq, Eq, Hash, Structural)]
pub struct Attributes {
    bits: u32,
}

impl View for Attributes {
    type V = Set<Attribute>;

    closed spec fn view(&self) -> Set<Attribute> {
        Set::new(|a: Attribute| bit_set(self.bits, a.index()))
    }
}

impl Attributes {
    /// The empty set, as a value.
    pub closed spec fn empty() -> Attributes {
        Attributes { bits: 0 }
    }

    /// This set with `attribute` added, as a value.
    pub closed spec fn plus(self, attribute: Attribute) -> Attributes {
        Attributes { bits: self.bits | (1u32 << attribute.index()) }
    }

    /// This set with `attribute` taken out, as a value.
    pub closed spec fn minus(self, attribute: Attribute) -> Attributes {
        Attributes { bits: self.bits & !(1u32 << attribute.index()) }
    }

    /// The set with no attribute.
    pub fn none() -> (s: Attributes)
        ensures
            s == Attributes::empty(),
            s@ == Set::<Attribute>::empty(),
    {
        proof {
            lemma_empty_has_none();
        }
        Attributes { bits: 0 }
    }

    /// The set that holds `attribute` and nothing else.
    pub fn from(attribute: Attribute) -> (s: Attributes)
        ensures
            s@ == Set::<Attribute>::empty().insert(attribute),
    {
        let mut s = Attributes::none();
        s.set(attribute);
        s
    }

    /// Adds `attribute` to the set. Nothing changes if it is there already.
    pub fn set(&mut self, attribute: Attribute)
        ensures
            *final(self) == old(self).plus(attribute),
            final(self)@ == old(self)@.insert(attribute),
    {
        let i = attribute.position();
        let ghost before = self.bits;
        self.bits = self.bits | (1u32 << i);
        proof {
            let after = self.bits;
            assert forall|a: Attribute| bit_set(after, a.index()) == (bit_set(before, a.index())
                || a == attribute) by {
                lemma_set_bit(before, i, a.index());
            }
        }
    }

    /// The set without `attribute`.
    pub fn without(self, attribute: Attribute) -> (s: Attributes)
        ensures
            s == self.minus(attribute),
            s@ == self@.remove(attribute),
    {
        let i = attribute.position();
        proof {
            lemma_minus_removes(self, attribute);
        }
        Attributes { bits: self.bits & !(1u32 << i) }
    }

    /// The union of the two sets.
    pub fn with(self, other: Attributes) -> (s: Attributes)
        ensures
            s@ == self@.union(other@),
    {
        let s = Attributes { bits: self.bits | other.bits };
        proof {
            assert forall|a: Attribute| bit_set(s.bits, a.index()) == (bit_set(self.bits, a.index())
                || bit_set(other.bits, a.index())) by {
                lemma_or_bit(self.bits, other.bits, a.index());
            }
        }
        s
    }

    /// Tells whether `attribute` is in the set.
    pub fn has(&self, attribute: Attribute) -> (r: bool)
        ensures
            r == self@.contains(attribute),
    {
        let i = attribute.position();
        self.bits & (1u32 << i) != 0
    }

    /// Tells whether the set is the empty one.
    pub fn is_empty(&self) -> (r: bool)
        ensures
            r == (*self == Attributes::empty()),
            r ==> self@ == Set::<Attribute>::empty(),
    {
        proof {
            lemma_empty_has_none();
        }
        self.bits == 0
    }
}

/// A set with an attribute added holds that attribute and what it held before.
pub proof fn lemma_plus_inserts(s: Attributes, attribute: Attribute)
    ensures
        s.plus(attribute)@ == s@.insert(attribute),
{
    let after = s.plus(attribute).bits;
    assert forall|a: Attribute| bit_set(after, a.index()) == (bit_set(s.bits, a.index()) || a
        == attribute) by {
        lemma_set_bit(s.bits, attribute.index(), a.index());
    }
}

/// A set with an attribute taken out holds what it held before but for that attribute.
pub proof fn lemma_minus_removes(s: Attributes, attribute: Attribute)
    ensures
        s.minus(attribute)@ == s@.remove(attribute),
{
    let after = s.minus(attribute).bits;
    assert forall|a: Attribute| bit_set(after, a.index()) == (bit_set(s.bits, a.index()) && a
        != attribute) by {
        lemma_clear_bit(s.bits, attribute.index(), a.index());
    }
}

/// The empty value holds no attribute.
pub proof fn lemma_empty_has_none()
    ensures
        Attributes::empty()@ == Set::<Attribute>::empty(),
{
    assert forall|a: Attribute| !bit_set(0u32, a.index()) by {
        let i = a.index();
        assert(0u32 & (1u32 << i) == 0) by (bit_vector);
    }
}

proof fn lemma_set_bit(bits: u32, i: u32, j: u32)
    requires
        i < 32,
        j < 32,
    ensures
        bit_set(bits | (1u32 << i), j) == (bit_set(bits, j) || i == j),
{
    assert(((bits | (1u32 << i)) & (1u32 << j) != 0) == ((bits & (1u32 << j) != 0) || i == j))
        by (bit_vector)
        requires
            i < 32,
            j < 32,
    ;
}

proof fn lemma_clear_bit(bits: u32, i: u32, j: u32)
    requires
        i < 32,
        j < 32,
    ensures
        bit_set(bits & !(1u32 << i), j) == (bit_set(bits, j) && i != j),
{
    assert(((bits & !(1u32 << i)) & (1u32 << j) != 0) == ((bits & (1u32 << j) != 0) && i != j))
        by (bit_vector)
        requires
            i < 32,
            j < 32,
    ;
}

proof fn lemma_or_bit(x: u32, y: u32, j: u32)
    ensures
        bit_set(x | y, j) == (bit_set(x, j) || bit_set(y, j)),
{
    assert(((x | y) & (1u32 << j) != 0) == ((x & (1u32 << j) != 0) || (y & (1u32 << j) != 0)))
        by (bit_vector);
}

} // verus!
