//! Base-128 varint codec.
//!
//! A varint is a run of one to five bytes. Each byte contributes its low
//! seven bits, shifted by seven times its index, OR'd into a 32-bit
//! accumulator; a byte with its high bit clear terminates the run. Bits
//! beyond bit 31 are dropped silently, as the observed protocol does.

use vstd::prelude::*;

verus! {

/// Outcome of scanning a varint run from byte index `i` onward, with the
/// groups of bytes `0 .. i` already accumulated in `acc`: the total number
/// of bytes consumed and the 32-bit value, or `None` when none of the first
/// five bytes terminates the run.
pub open spec fn spec_varint_from(bytes: Seq<u8>, i: nat, acc: u32) -> Option<(usize, i32)>
    decreases 5 - i,
{
    if i >= 5 || i >= bytes.len() {
        None
    } else {
        let acc2: u32 = acc | (((bytes[i as int] & 0x7f) as u32) << ((7 * i) as u32));
        if bytes[i as int] & 0x80 == 0 {
            Some(((i + 1) as usize, acc2 as i32))
        } else {
            spec_varint_from(bytes, i + 1, acc2)
        }
    }
}

/// A terminated varint run consumes at least one byte past `i`, at most
/// five in all, and never more than the buffer holds.
pub proof fn lemma_varint_len(bytes: Seq<u8>, i: nat, acc: u32)
    requires
        spec_varint_from(bytes, i, acc) is Some,
    ensures
        ({
            let l = spec_varint_from(bytes, i, acc)->Some_0.0;
            i < l <= 5 && l <= bytes.len()
        }),
    decreases 5 - i,
{
    if i >= 5 || i >= bytes.len() {
    } else {
        let acc2: u32 = acc | (((bytes[i as int] & 0x7f) as u32) << ((7 * i) as u32));
        if bytes[i as int] & 0x80 == 0 {
        } else {
            lemma_varint_len(bytes, i + 1, acc2);
        }
    }
}

/// The varint at the start of `bytes`: consumed length and decoded value,
/// or `None` when no byte among the first five has its high bit clear.
pub open spec fn spec_varint(bytes: Seq<u8>) -> Option<(usize, i32)> {
    spec_varint_from(bytes, 0, 0)
}

/// Decodes a base-128 varint from the start of `buf`: up to five bytes in
/// little-endian group order, each contributing its low seven bits. Returns
/// the consumed length and the value, or `None` when no byte among the
/// first five terminates the run.
pub fn read_varint(buf: &[u8]) -> (r: Option<(usize, i32)>)
    ensures
        r == spec_varint(buf@),
{
    let mut acc: u32 = 0;
    let mut i: usize = 0;
    let n: usize = if buf.len() < 5 { buf.len() } else { 5 };
    while i < n
        invariant
            0 <= i <= n,
            n == if buf@.len() < 5 { buf@.len() as int } else { 5int },
            spec_varint(buf@) == spec_varint_from(buf@, i as nat, acc),
        decreases n - i,
    {
        let b: u8 = buf[i];
        acc = acc | (((b & 0x7f) as u32) << ((7 * i) as u32));
        if b & 0x80 == 0 {
            return Some((i + 1, acc as i32));
        }
        i = i + 1;
    }
    None
}

} // verus!
