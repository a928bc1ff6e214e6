//! Control bytes of the serial stream and the classes a byte can fall into.

use vstd::prelude::*;

verus! {

/// Bracket `[`, the second byte of a control sequence introducer.
pub const BK: u8 = 0x5B;

/// Backspace.
pub const BS: u8 = 0x08;

/// Carriage return.
pub const CR: u8 = 0x0D;

/// Escape, the first byte of every escape sequence.
pub const ESC: u8 = 0x1B;

/// Line feed.
pub const NL: u8 = 0x0A;

/// Separator `;` between the parameters of a control sequence.
pub const SEP: u8 = 0x3B;

/// Horizontal tab.
pub const TAB: u8 = 0x09;

/// Form feed.
pub const FF: u8 = 0x0C;

/// Bell.
pub const BEL: u8 = 0x07;

/// Delete.
pub const DEL: u8 = 0x7F;

/// Whether `b` is a 7-bit value.
pub open spec fn is_ascii(b: u8) -> bool {
    b < 0x80
}

/// Whether `b` is a C0 control byte or DEL.
pub open spec fn is_control(b: u8) -> bool {
    b < 0x20 || b == 0x7F
}

/// Whether `b` is an ASCII letter, the terminator of a control sequence.
pub open spec fn is_letter(b: u8) -> bool {
    (0x41 <= b && b <= 0x5A) || (0x61 <= b && b <= 0x7A)
}

/// Whether `b` is an ASCII decimal digit.
pub open spec fn is_digit(b: u8) -> bool {
    0x30 <= b && b <= 0x39
}

/// Tells whether `b` is a 7-bit value.
pub fn byte_is_ascii(b: u8) -> (r: bool)
    ensures
        r == is_ascii(b),
{
    b < 0x80
}

/// Tells whether `b` is a C0 control byte or DEL.
pub fn byte_is_control(b: u8) -> (r: bool)
    ensures
        r == is_control(b),
{
    b < 0x20 || b == 0x7F
}

/// Tells whether `b` is an ASCII letter.
pub fn byte_is_letter(b: u8) -> (r: bool)
    ensures
        r == is_letter(b),
{
    (0x41 <= b && b <= 0x5A) || (0x61 <= b && b <= 0x7A)
}

/// Tells whether `b` is an ASCII decimal digit.
pub fn byte_is_digit(b: u8) -> (r: bool)
    ensures
        r == is_digit(b),
{
    0x30 <= b && b <= 0x39
}

} // verus!
