//! The debug output: what of a batch of bytes is shown in the record.

use vstd::prelude::*;
use crate::ascii::{byte_is_control, is_control};

verus! {

/// How many bytes of a batch are looked at for the record.
pub const SHOWN_BYTES: usize = 20;

/// The size of the buffer of the record's writer.
pub const WRITER_CAPACITY: usize = 49152;

/// The record's writer flushes once this much time has passed since the
/// last flush, in milliseconds.
pub const FLUSH_INTERVAL_MS: u64 = 100;

/// The record's writer flushes once its buffer holds more than this many bytes.
pub const FLUSH_SIZE: usize = 32768;

/// The control bytes among the first [`SHOWN_BYTES`] bytes of `data`.
pub open spec fn shown_controls(data: Seq<u8>) -> Seq<u8> {
    data.take(
        if data.len() < SHOWN_BYTES {
            data.len() as int
        } else {
            SHOWN_BYTES as int
        },
    ).filter(|b: u8| is_control(b))
}

/// Picks the control bytes among the first [`SHOWN_BYTES`] bytes of a batch.
pub fn control_bytes(data: &[u8]) -> (shown: Vec<u8>)
    ensures
        shown@ == shown_controls(data@),
{
    let end = if data.len() < SHOWN_BYTES {
        data.len()
    } else {
        SHOWN_BYTES
    };
    let mut shown: Vec<u8> = Vec::new();
    let mut i: usize = 0;
    while i < end
        invariant
            i <= end <= data@.len(),
            shown@ == data@.take(i as int).filter(|b: u8| is_control(b)),
        decreases end - i,
    {
        proof {
            reveal(Seq::filter);
            assert(data@.take(i + 1).drop_last() =~= data@.take(i as int));
        }
        if byte_is_control(data[i]) {
            shown.push(data[i]);
        }
        i = i + 1;
    }
    shown
}

/// Tells whether the record's writer flushes: `elapsed_ms` is the time
/// since the last flush, `buffered` the number of bytes in the writer's buffer.
pub fn should_flush(elapsed_ms: u64, buffered: usize) -> (r: bool)
    ensures
        r == (elapsed_ms > FLUSH_INTERVAL_MS || buffered > FLUSH_SIZE),
{
    elapsed_ms > FLUSH_INTERVAL_MS || buffered > FLUSH_SIZE
}

/// Tells whether a batch of `len` bytes is longer than what is looked at.
pub fn is_cut(len: usize) -> (r: bool)
    ensures
        r == (len > SHOWN_BYTES),
{
    len > SHOWN_BYTES
}

} // verus!
