//! Bit-level view of the `u32` words that hold generator-matrix rows, and the
//! byte order in which the expanded matrix is left in memory.
use vstd::prelude::*;

use vstd::endian::{endianness, Endian};

verus! {

/// Bit `i` of word `w`, counted from the most significant bit (bit 0) to the
/// least significant bit (bit 31). Rows of the generator matrix are stored in
/// this order, so column `c` of a row is bit `c % 32` of word `c / 32`.
pub open spec fn word_bit(w: u32, i: u32) -> bool {
    (w >> ((31 - i) as u32)) & 1u32 == 1u32
}

/// Bit `c` of the row of words that starts at index `start` of `s`.
pub open spec fn row_bit(s: Seq<u32>, start: int, c: int) -> bool {
    word_bit(s[start + c / 32], (c % 32) as u32)
}

/// `x` with the order of its four bytes reversed.
pub open spec fn swap_bytes32(x: u32) -> u32 {
    ((x & 0xffu32) << 24u32) | ((x & 0xff00u32) << 8u32) | ((x >> 8u32) & 0xff00u32) | (x
        >> 24u32)
}

/// The word whose big-endian encoding is held in memory by `x` on the target
/// machine: `x` itself on a big-endian target, `x` with its bytes reversed on
/// a little-endian one. The same function converts a word to big endian.
pub open spec fn be_word(x: u32) -> u32 {
    match endianness() {
        Endian::Big => x,
        Endian::Little => swap_bytes32(x),
    }
}

/// Reading a word back from big endian undoes converting it to big endian.
pub proof fn lemma_be_word_involutive(x: u32)
    ensures
        be_word(be_word(x)) == x,
{
    assert(swap_bytes32(swap_bytes32(x)) == x) by (bit_vector);
}

/// `u32::to_be`: the standard library documents it as the identity on a
/// big-endian target and as reversing the bytes on a little-endian target.
/// Its contract states exactly that, through vstd's abstraction of the
/// target's endianness.
#[verifier::external_body]
pub(crate) fn to_be_u32(x: u32) -> (r: u32)
    ensures
        r == be_word(x),
{
    x.to_be()
}

/// Shifting a word right by one bit and filling its top bit with the low bit
/// of `carry` moves every bit one column to the right.
pub proof fn lemma_shift_in_carry(carry: u32, w: u32, m: u32)
    requires
        m < 32,
    ensures
        word_bit(((carry & 1u32) << 31u32) | (w >> 1u32), m) == if m == 0 {
            word_bit(carry, 31)
        } else {
            word_bit(w, (m - 1) as u32)
        },
{
    if m == 0 {
        assert(((((carry & 1u32) << 31u32) | (w >> 1u32)) >> 31u32) & 1u32 == (carry >> 0u32)
            & 1u32) by (bit_vector);
    } else {
        assert(((((carry & 1u32) << 31u32) | (w >> 1u32)) >> ((31 - m) as u32)) & 1u32 == (w >> ((
        31 - (m - 1)) as u32)) & 1u32) by (bit_vector)
            requires
                0 < m < 32,
        ;
    }
}

/// The word `x` with the 16-bit half selected by `shift` (16 for the high
/// half, 0 for the low half) rotated right by one bit, the other half kept.
pub open spec fn rotate_half_spec(x: u32, shift: u32) -> u32 {
    let block = (x >> shift) & 0xffffu32;
    let rotated = ((block & 1u32) << 15u32) | (block >> 1u32);
    (x & !(0xffffu32 << shift)) | (rotated << shift)
}

/// Rotating one 16-bit half of a word right by one bit moves each bit of that
/// half one column to the right, the half's last bit to its first column, and
/// leaves the other half alone.
pub proof fn lemma_rotate_half(x: u32, shift: u32, m: u32)
    requires
        shift == 0 || shift == 16,
        m < 32,
    ensures
        word_bit(rotate_half_spec(x, shift), m) == if (m < 16) != (shift == 16) {
            word_bit(x, m)
        } else if m == 0 || m == 16 {
            word_bit(x, (m + 15) as u32)
        } else {
            word_bit(x, (m - 1) as u32)
        },
{
    if (m < 16) != (shift == 16) {
        assert((((x & !(0xffffu32 << shift)) | (((((x >> shift) & 0xffffu32) & 1u32) << 15u32) | (((
        x >> shift) & 0xffffu32) >> 1u32)) << shift) >> ((31 - m) as u32)) & 1u32 == (x >> ((31
            - m) as u32)) & 1u32) by (bit_vector)
            requires
                shift == 0 || shift == 16,
                m < 32,
                (m < 16) != (shift == 16),
        ;
    } else if m == 0 || m == 16 {
        assert((((x & !(0xffffu32 << shift)) | (((((x >> shift) & 0xffffu32) & 1u32) << 15u32) | (((
        x >> shift) & 0xffffu32) >> 1u32)) << shift) >> ((31 - m) as u32)) & 1u32 == (x >> ((31
            - (m + 15)) as u32)) & 1u32) by (bit_vector)
            requires
                shift == 0 || shift == 16,
                m == 0 || m == 16,
                (m < 16) == (shift == 16),
        ;
    } else {
        assert((((x & !(0xffffu32 << shift)) | (((((x >> shift) & 0xffffu32) & 1u32) << 15u32) | (((
        x >> shift) & 0xffffu32) >> 1u32)) << shift) >> ((31 - m) as u32)) & 1u32 == (x >> ((31
            - (m - 1)) as u32)) & 1u32) by (bit_vector)
            requires
                shift == 0 || shift == 16,
                m < 32,
                m != 0,
                m != 16,
                (m < 16) == (shift == 16),
        ;
    }
}

/// Two words with the same 32 bits are equal.
pub proof fn lemma_word_ext(x: u32, y: u32)
    requires
        forall|m: u32| m < 32 ==> word_bit(x, m) == word_bit(y, m),
    ensures
        x == y,
{
    assert(word_bit(x, 0) == word_bit(y, 0));
    assert(word_bit(x, 1) == word_bit(y, 1));
    assert(word_bit(x, 2) == word_bit(y, 2));
    assert(word_bit(x, 3) == word_bit(y, 3));
    assert(word_bit(x, 4) == word_bit(y, 4));
    assert(word_bit(x, 5) == word_bit(y, 5));
    assert(word_bit(x, 6) == word_bit(y, 6));
    assert(word_bit(x, 7) == word_bit(y, 7));
    assert(word_bit(x, 8) == word_bit(y, 8));
    assert(word_bit(x, 9) == word_bit(y, 9));
    assert(word_bit(x, 10) == word_bit(y, 10));
    assert(word_bit(x, 11) == word_bit(y, 11));
    assert(word_bit(x, 12) == word_bit(y, 12));
    assert(word_bit(x, 13) == word_bit(y, 13));
    assert(word_bit(x, 14) == word_bit(y, 14));
    assert(word_bit(x, 15) == word_bit(y, 15));
    assert(word_bit(x, 16) == word_bit(y, 16));
    assert(word_bit(x, 17) == word_bit(y, 17));
    assert(word_bit(x, 18) == word_bit(y, 18));
    assert(word_bit(x, 19) == word_bit(y, 19));
    assert(word_bit(x, 20) == word_bit(y, 20));
    assert(word_bit(x, 21) == word_bit(y, 21));
    assert(word_bit(x, 22) == word_bit(y, 22));
    assert(word_bit(x, 23) == word_bit(y, 23));
    assert(word_bit(x, 24) == word_bit(y, 24));
    assert(word_bit(x, 25) == word_bit(y, 25));
    assert(word_bit(x, 26) == word_bit(y, 26));
    assert(word_bit(x, 27) == word_bit(y, 27));
    assert(word_bit(x, 28) == word_bit(y, 28));
    assert(word_bit(x, 29) == word_bit(y, 29));
    assert(word_bit(x, 30) == word_bit(y, 30));
    assert(word_bit(x, 31) == word_bit(y, 31));
    assert(x == y) by (bit_vector)
        requires
            ((x >> 31u32) & 1u32 == 1u32) == ((y >> 31u32) & 1u32 == 1u32),
            ((x >> 30u32) & 1u32 == 1u32) == ((y >> 30u32) & 1u32 == 1u32),
            ((x >> 29u32) & 1u32 == 1u32) == ((y >> 29u32) & 1u32 == 1u32),
            ((x >> 28u32) & 1u32 == 1u32) == ((y >> 28u32) & 1u32 == 1u32),
            ((x >> 27u32) & 1u32 == 1u32) == ((y >> 27u32) & 1u32 == 1u32),
            ((x >> 26u32) & 1u32 == 1u32) == ((y >> 26u32) & 1u32 == 1u32),
            ((x >> 25u32) & 1u32 == 1u32) == ((y >> 25u32) & 1u32 == 1u32),
            ((x >> 24u32) & 1u32 == 1u32) == ((y >> 24u32) & 1u32 == 1u32),
            ((x >> 23u32) & 1u32 == 1u32) == ((y >> 23u32) & 1u32 == 1u32),
            ((x >> 22u32) & 1u32 == 1u32) == ((y >> 22u32) & 1u32 == 1u32),
            ((x >> 21u32) & 1u32 == 1u32) == ((y >> 21u32) & 1u32 == 1u32),
            ((x >> 20u32) & 1u32 == 1u32) == ((y >> 20u32) & 1u32 == 1u32),
            ((x >> 19u32) & 1u32 == 1u32) == ((y >> 19u32) & 1u32 == 1u32),
            ((x >> 18u32) & 1u32 == 1u32) == ((y >> 18u32) & 1u32 == 1u32),
            ((x >> 17u32) & 1u32 == 1u32) == ((y >> 17u32) & 1u32 == 1u32),
            ((x >> 16u32) & 1u32 == 1u32) == ((y >> 16u32) & 1u32 == 1u32),
            ((x >> 15u32) & 1u32 == 1u32) == ((y >> 15u32) & 1u32 == 1u32),
            ((x >> 14u32) & 1u32 == 1u32) == ((y >> 14u32) & 1u32 == 1u32),
            ((x >> 13u32) & 1u32 == 1u32) == ((y >> 13u32) & 1u32 == 1u32),
            ((x >> 12u32) & 1u32 == 1u32) == ((y >> 12u32) & 1u32 == 1u32),
            ((x >> 11u32) & 1u32 == 1u32) == ((y >> 11u32) & 1u32 == 1u32),
            ((x >> 10u32) & 1u32 == 1u32) == ((y >> 10u32) & 1u32 == 1u32),
            ((x >> 9u32) & 1u32 == 1u32) == ((y >> 9u32) & 1u32 == 1u32),
            ((x >> 8u32) & 1u32 == 1u32) == ((y >> 8u32) & 1u32 == 1u32),
            ((x >> 7u32) & 1u32 == 1u32) == ((y >> 7u32) & 1u32 == 1u32),
            ((x >> 6u32) & 1u32 == 1u32) == ((y >> 6u32) & 1u32 == 1u32),
            ((x >> 5u32) & 1u32 == 1u32) == ((y >> 5u32) & 1u32 == 1u32),
            ((x >> 4u32) & 1u32 == 1u32) == ((y >> 4u32) & 1u32 == 1u32),
            ((x >> 3u32) & 1u32 == 1u32) == ((y >> 3u32) & 1u32 == 1u32),
            ((x >> 2u32) & 1u32 == 1u32) == ((y >> 2u32) & 1u32 == 1u32),
            ((x >> 1u32) & 1u32 == 1u32) == ((y >> 1u32) & 1u32 == 1u32),
            ((x >> 0u32) & 1u32 == 1u32) == ((y >> 0u32) & 1u32 == 1u32),
    ;
}

} // verus!
