//! Little-endian byte serialization of 32-bit words.
//!
//! GPU-bound buffers are built on the CPU as plain byte vectors; every
//! 32-bit word (an index or an IEEE-754 bit pattern) occupies four bytes,
//! least significant first.  Serialization and parsing are verified and
//! proved inverse to each other.

use vstd::prelude::*;

verus! {

/// The four little-endian bytes of `w`.
pub open spec fn le_bytes32(w: u32) -> Seq<u8> {
    seq![
        (w & 0xff) as u8,
        ((w >> 8) & 0xff) as u8,
        ((w >> 16) & 0xff) as u8,
        ((w >> 24) & 0xff) as u8,
    ]
}

/// The word encoded by four little-endian bytes.
pub open spec fn word_of_le(b0: u8, b1: u8, b2: u8, b3: u8) -> u32 {
    (b0 as u32) | ((b1 as u32) << 8) | ((b2 as u32) << 16) | ((b3 as u32) << 24)
}

/// The little-endian bytes of the first `k` words of `ws`, in order.
pub open spec fn words_bytes(ws: Seq<u32>, k: int) -> Seq<u8>
    decreases k,
{
    if k <= 0 {
        Seq::empty()
    } else {
        words_bytes(ws, k - 1) + le_bytes32(ws[k - 1])
    }
}

/// Parsing the four bytes of a word recovers the word.
pub proof fn lemma_le_roundtrip(w: u32)
    ensures
        word_of_le(le_bytes32(w)[0], le_bytes32(w)[1], le_bytes32(w)[2], le_bytes32(w)[3]) == w,
{
    assert((((w & 0xff) as u8) as u32) | ((((w >> 8) & 0xff) as u8 as u32) << 8)
        | ((((w >> 16) & 0xff) as u8 as u32) << 16) | ((((w >> 24) & 0xff) as u8 as u32) << 24)
        == w) by (bit_vector);
}

/// Append the four little-endian bytes of `w`.
pub fn push_word(out: &mut Vec<u8>, w: u32)
    ensures
        final(out)@ == old(out)@ + le_bytes32(w),
{
    out.push((w & 0xff) as u8);
    out.push(((w >> 8) & 0xff) as u8);
    out.push(((w >> 16) & 0xff) as u8);
    out.push(((w >> 24) & 0xff) as u8);
    proof {
        assert(out@ =~= old(out)@ + le_bytes32(w));
    }
}

/// Read the word at byte offset `at`.
pub fn read_word(bytes: &Vec<u8>, at: usize) -> (r: u32)
    requires
        at + 4 <= bytes@.len(),
    ensures
        r == word_of_le(
            bytes@[at as int],
            bytes@[at as int + 1],
            bytes@[at as int + 2],
            bytes@[at as int + 3],
        ),
{
    let n = bytes.len();
    assert(at + 4 <= n);
    let b0 = bytes[at];
    let b1 = bytes[at + 1];
    let b2 = bytes[at + 2];
    let b3 = bytes[at + 3];
    (b0 as u32) | ((b1 as u32) << 8) | ((b2 as u32) << 16) | ((b3 as u32) << 24)
}

} // verus!
