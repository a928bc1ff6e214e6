//! Control sequences other than the graphics mode: what a sequence
//! `ESC [ parameters letter` asks of the cursor or of the cells.

use vstd::prelude::*;
use vstd::slice::slice_subrange;
use crate::ascii::{byte_is_digit, is_digit, BK, ESC};
use crate::sgr::{body_of, digit_value, find_param_end, param_end};

verus! {

/// Which part of a row or of the screen an erase command clears.
#[derive(Debug, Clone, Copy, PartialEq, Eq, Structural)]
pub enum EraseMode {
    /// From the cursor to the end.
    ToEnd,
    /// From the start up to the cursor.
    ToStart,
    /// All of it.
    All,
}

/// What a control sequence asks for.
#[derive(Debug, Clone, Copy, PartialEq, Eq, Structural)]
pub enum CsiCommand {
    /// `A`: cursor up by so many rows.
    CursorUp(u16),
    /// `B`: cursor down by so many rows.
    CursorDown(u16),
    /// `C`: cursor right by so many columns.
    CursorRight(u16),
    /// `D`: cursor left by so many columns.
    CursorLeft(u16),
    /// `E`: cursor to the start of the row so many rows down.
    NextLine(u16),
    /// `F`: cursor to the start of the row so many rows up.
    PreviousLine(u16),
    /// `G`: cursor to this column.
    Column(u16),
    /// `H` or `f`: cursor to this row of the screen and this column, both
    /// counted from 1.
    MoveTo { row: u16, col: u16 },
    /// `J`: erase in the screen.
    EraseDisplay(EraseMode),
    /// `K`: erase in the cursor's row.
    EraseLine(EraseMode),
    /// Anything else; it is ignored.
    Unknown,
}

/// The number that the decimal digits `digits` write.
pub open spec fn decimal(digits: Seq<u8>) -> nat
    decreases digits.len(),
{
    if digits.len() == 0 {
        0
    } else {
        10 * decimal(digits.drop_last()) + digit_value(digits.last())
    }
}

/// Whether every byte of `field` is a decimal digit.
pub open spec fn all_digits(field: Seq<u8>) -> bool {
    forall|i: int| 0 <= i < field.len() ==> is_digit(#[trigger] field[i])
}

/// The value of a numeric parameter: `default` where the parameter is empty,
/// the number it writes otherwise, and the largest `u16` where that is beyond it.
pub open spec fn field_value(field: Seq<u8>, default: u16) -> u16 {
    if field.len() == 0 {
        default
    } else if decimal(field) > u16::MAX {
        u16::MAX
    } else {
        decimal(field) as u16
    }
}

/// Whether `seq` starts with `ESC [` and has a final byte.
pub open spec fn is_csi(seq: Seq<u8>) -> bool {
    seq.len() >= 3 && seq[0] == ESC && seq[1] == BK
}

/// The erase mode that the number `n` names, if it names one.
pub open spec fn erase_mode(n: u16) -> Option<EraseMode> {
    if n == 0 {
        Some(EraseMode::ToEnd)
    } else if n == 1 {
        Some(EraseMode::ToStart)
    } else if n == 2 {
        Some(EraseMode::All)
    } else {
        None
    }
}

/// What a sequence with the final byte `fin` and the single parameter
/// `field` asks for. An empty parameter counts as 1, or as 0 for the erase
/// commands.
pub open spec fn one_field_command(fin: u8, field: Seq<u8>) -> CsiCommand {
    if fin == 0x41 {
        CsiCommand::CursorUp(field_value(field, 1))
    } else if fin == 0x42 {
        CsiCommand::CursorDown(field_value(field, 1))
    } else if fin == 0x43 {
        CsiCommand::CursorRight(field_value(field, 1))
    } else if fin == 0x44 {
        CsiCommand::CursorLeft(field_value(field, 1))
    } else if fin == 0x45 {
        CsiCommand::NextLine(field_value(field, 1))
    } else if fin == 0x46 {
        CsiCommand::PreviousLine(field_value(field, 1))
    } else if fin == 0x47 {
        CsiCommand::Column(field_value(field, 1))
    } else if fin == 0x48 || fin == 0x66 {
        CsiCommand::MoveTo { row: field_value(field, 1), col: 1 }
    } else if fin == 0x4A {
        match erase_mode(field_value(field, 0)) {
            Some(m) => CsiCommand::EraseDisplay(m),
            None => CsiCommand::Unknown,
        }
    } else if fin == 0x4B {
        match erase_mode(field_value(field, 0)) {
            Some(m) => CsiCommand::EraseLine(m),
            None => CsiCommand::Unknown,
        }
    } else {
        CsiCommand::Unknown
    }
}

/// What the escape sequence `seq` asks for. A sequence that is no control
/// sequence, has a parameter that is not a number, has more parameters than
/// its final byte takes, or has a final byte that is not in the table, is
/// `Unknown`.
pub open spec fn csi_command(seq: Seq<u8>) -> CsiCommand {
    if !is_csi(seq) {
        CsiCommand::Unknown
    } else {
        let body = body_of(seq);
        let fin = seq.last();
        let end0 = param_end(body, 0);
        let first = body.subrange(0, end0);
        if !all_digits(first) {
            CsiCommand::Unknown
        } else if end0 >= body.len() {
            one_field_command(fin, first)
        } else {
            let end1 = param_end(body, end0 + 1);
            let second = body.subrange(end0 + 1, end1);
            if end1 >= body.len() && all_digits(second) && (fin == 0x48 || fin == 0x66) {
                CsiCommand::MoveTo { row: field_value(first, 1), col: field_value(second, 1) }
            } else {
                CsiCommand::Unknown
            }
        }
    }
}

/// Reads the numeric parameter `body[start..end]`.
fn read_field(body: &[u8], start: usize, end: usize, default: u16) -> (r: Option<u16>)
    requires
        start <= end <= body@.len(),
    ensures
        r is Some <==> all_digits(body@.subrange(start as int, end as int)),
        r is Some ==> r->0 == field_value(body@.subrange(start as int, end as int), default),
{
    let ghost field = body@.subrange(start as int, end as int);
    if start == end {
        return Some(default);
    }
    let mut v: u32 = 0;
    let mut i = start;
    while i < end
        invariant
            start <= i <= end <= body@.len(),
            field == body@.subrange(start as int, end as int),
            all_digits(field.take(i - start)),
            v <= u16::MAX,
            decimal(field.take(i - start)) <= u16::MAX ==> v == decimal(field.take(i - start)),
            decimal(field.take(i - start)) > u16::MAX ==> v == u16::MAX,
        decreases end - i,
    {
        let b = body[i];
        assert(field[i - start] == b);
        if !byte_is_digit(b) {
            return None;
        }
        proof {
            assert(field.take(i + 1 - start).drop_last() =~= field.take(i - start));
        }
        v = v * 10 + (b - 0x30) as u32;
        if v > 65535 {
            v = 65535;
        }
        i = i + 1;
    }
    proof {
        assert(field.take(end - start) =~= field);
    }
    Some(v as u16)
}

/// Finds what a sequence with one parameter asks for.
fn one_field(fin: u8, body: &[u8], end: usize) -> (c: CsiCommand)
    requires
        end <= body@.len(),
        all_digits(body@.subrange(0, end as int)),
    ensures
        c == one_field_command(fin, body@.subrange(0, end as int)),
{
    let by_one = read_field(body, 0, end, 1);
    let by_zero = read_field(body, 0, end, 0);
    match (by_one, by_zero) {
        (Some(n), Some(m)) => {
            if fin == 0x41 {
                CsiCommand::CursorUp(n)
            } else if fin == 0x42 {
                CsiCommand::CursorDown(n)
            } else if fin == 0x43 {
                CsiCommand::CursorRight(n)
            } else if fin == 0x44 {
                CsiCommand::CursorLeft(n)
            } else if fin == 0x45 {
                CsiCommand::NextLine(n)
            } else if fin == 0x46 {
                CsiCommand::PreviousLine(n)
            } else if fin == 0x47 {
                CsiCommand::Column(n)
            } else if fin == 0x48 || fin == 0x66 {
                CsiCommand::MoveTo { row: n, col: 1 }
            } else if fin == 0x4A {
                if m == 0 {
                    CsiCommand::EraseDisplay(EraseMode::ToEnd)
                } else if m == 1 {
                    CsiCommand::EraseDisplay(EraseMode::ToStart)
                } else if m == 2 {
                    CsiCommand::EraseDisplay(EraseMode::All)
                } else {
                    CsiCommand::Unknown
                }
            } else if fin == 0x4B {
                if m == 0 {
                    CsiCommand::EraseLine(EraseMode::ToEnd)
                } else if m == 1 {
                    CsiCommand::EraseLine(EraseMode::ToStart)
                } else if m == 2 {
                    CsiCommand::EraseLine(EraseMode::All)
                } else {
                    CsiCommand::Unknown
                }
            } else {
                CsiCommand::Unknown
            }
        },
        _ => CsiCommand::Unknown,
    }
}

/// Reads an escape sequence as a command for the cursor or the cells.
pub fn parse_csi(seq: &[u8]) -> (c: CsiCommand)
    ensures
        c == csi_command(seq@),
{
    if !(seq.len() >= 3 && seq[0] == ESC && seq[1] == BK) {
        return CsiCommand::Unknown;
    }
    let fin = seq[seq.len() - 1];
    let body = slice_subrange(seq, 2, seq.len() - 1);
    let end0 = find_param_end(body, 0);
    match read_field(body, 0, end0, 1) {
        None => CsiCommand::Unknown,
        Some(row) => {
            if end0 >= body.len() {
                one_field(fin, body, end0)
            } else {
                let end1 = find_param_end(body, end0 + 1);
                if end1 >= body.len() && (fin == 0x48 || fin == 0x66) {
                    match read_field(body, end0 + 1, end1, 1) {
                        Some(col) => CsiCommand::MoveTo { row, col },
                        None => CsiCommand::Unknown,
                    }
                } else {
                    CsiCommand::Unknown
                }
            }
        },
    }
}

} // verus!
