//! Expansion of circulant generator matrices, one row at a time.
//!
//! A row of the parity part of a generator matrix is a sequence of words,
//! most significant bit first (see [`row_bit`]). It is divided into
//! circulants of `b` columns; each row of a block of `b` rows is the row above
//! it with every circulant rotated right by one column.
use vstd::prelude::*;

use crate::bits::{lemma_rotate_half, lemma_shift_in_carry, rotate_half_spec, row_bit, word_bit};

verus! {

/// Position within a circulant of width `b` that column `p` of the `t`-th
/// right rotation of the circulant comes from: `(p - t) mod b`, for
/// `0 <= p < b` and `0 <= t < b`.
pub open spec fn circ_source(p: int, t: int, b: int) -> int {
    if p >= t {
        p - t
    } else {
        p + b - t
    }
}

/// Column of the first row of a circulant block that column `c` of the
/// block's row `t` is copied from: same circulant, rotated back by `t`.
pub open spec fn source_column(c: int, t: int, b: int) -> int {
    (c / b) * b + circ_source(c % b, t, b)
}

/// Column `c` of row `row` of the expanded generator, read from the compact
/// generator `gc` whose rows are `w` words long and stand for blocks of `b`
/// rows.
pub open spec fn generator_bit(gc: Seq<u32>, b: int, w: int, row: int, c: int) -> bool {
    row_bit(gc, (row / b) * w, source_column(c, row % b, b))
}

/// Splitting a column of a row of word-aligned circulants into its circulant
/// and its place in the circulant, and into its word and its bit.
pub proof fn lemma_block_column(q: int, p: int, b: int)
    requires
        0 < b,
        b % 32 == 0,
        0 <= q,
        0 <= p < b,
    ensures
        (q * b + p) / b == q,
        (q * b + p) % b == p,
        (q * b + p) / 32 == q * (b / 32) + p / 32,
        (q * b + p) % 32 == p % 32,
{
    vstd::arithmetic::div_mod::lemma_fundamental_div_mod_converse(q * b + p, b, q, p);
    let bw = b / 32;
    vstd::arithmetic::div_mod::lemma_fundamental_div_mod(b, 32);
    assert(q * b == 32 * (q * bw)) by (nonlinear_arith)
        requires
            b == 32 * bw + 0,
    ;
    vstd::arithmetic::div_mod::lemma_fundamental_div_mod_converse(
        q * b + p,
        32,
        q * bw + p / 32,
        p % 32,
    );
}

/// A column splits into its circulant and its place in the circulant.
pub proof fn lemma_column_split(c: int, b: int)
    requires
        0 < b,
        0 <= c,
    ensures
        c == (c / b) * b + c % b,
        0 <= c % b < b,
        0 <= c / b,
{
    vstd::arithmetic::div_mod::lemma_fundamental_div_mod(c, b);
    vstd::arithmetic::mul::lemma_mul_is_commutative(b, c / b);
}

/// Row `t` of block `j` of blocks of `b` rows is row `j * b + t`.
pub proof fn lemma_row_of_block(j: int, t: int, b: int)
    requires
        0 < b,
        0 <= j,
        0 <= t < b,
    ensures
        (j * b + t) / b == j,
        (j * b + t) % b == t,
{
    vstd::arithmetic::div_mod::lemma_fundamental_div_mod_converse(j * b + t, b, j, t);
}

/// The first row of a block takes every column from the same column.
pub proof fn lemma_source_first(c: int, b: int)
    requires
        0 < b,
        0 <= c,
    ensures
        source_column(c, 0, b) == c,
{
    lemma_column_split(c, b);
}

/// The source column of a column stays in the same circulant, and so inside
/// a row made of whole circulants.
pub proof fn lemma_source_in_row(c: int, t: int, b: int, r: int)
    requires
        0 < b,
        r % b == 0,
        0 <= c < r,
        0 <= t < b,
    ensures
        0 <= source_column(c, t, b) < r,
        source_column(c, t, b) / b == c / b,
        source_column(c, t, b) % b == circ_source(c % b, t, b),
{
    lemma_column_split(c, b);
    lemma_column_split(r, b);
    let q = c / b;
    if q + 1 > r / b {
        vstd::arithmetic::mul::lemma_mul_inequality(r / b, q, b);
    }
    vstd::arithmetic::mul::lemma_mul_inequality(q + 1, r / b, b);
    vstd::arithmetic::mul::lemma_mul_is_distributive_add(b, q, 1);
    vstd::arithmetic::mul::lemma_mul_is_commutative(b, q);
    vstd::arithmetic::mul::lemma_mul_is_commutative(b, q + 1);
    lemma_row_of_block(q, circ_source(c % b, t, b), b);
}

/// Rotating `t` times is rotating once and then `t - 1` more times.
pub proof fn lemma_source_step(c: int, t: int, b: int)
    requires
        0 < b,
        1 <= t < b,
        0 <= c,
    ensures
        source_column(source_column(c, 1, b), t - 1, b) == source_column(c, t, b),
{
    lemma_column_split(c, b);
    let q = c / b;
    let p = c % b;
    lemma_row_of_block(q, circ_source(p, 1, b), b);
}

/// Copy `count` words of `src`, starting at `src_start`, into `g` at `dst`.
pub(crate) fn copy_words(g: &mut [u32], dst: usize, src: &[u32], src_start: usize, count: usize)
    requires
        dst + count <= old(g)@.len(),
        src_start + count <= src@.len(),
    ensures
        final(g)@.len() == old(g)@.len(),
        forall|i: int| dst <= i < dst + count ==> final(g)@[i] == src@[src_start + i - dst],
        forall|i: int|
            0 <= i < old(g)@.len() && !(dst <= i < dst + count) ==> final(g)@[i] == old(g)@[i],
{
    let mut i: usize = 0;
    while i < count
        invariant
            0 <= i <= count,
            dst + count <= g.len(),
            src_start + count <= src.len(),
            g@.len() == old(g)@.len(),
            forall|j: int| dst <= j < dst + i ==> g@[j] == src@[src_start + j - dst],
            forall|j: int|
                0 <= j < g@.len() && !(dst <= j < dst + i) ==> g@[j] == old(g)@[j],
        decreases count - i,
    {
        g[dst + i] = src[src_start + i];
        i += 1;
    }
}

/// Copy the `count` words of `g` that start at `src_start` to `dst`, a later
/// place that does not overlap them.
pub(crate) fn copy_words_within(g: &mut [u32], dst: usize, src_start: usize, count: usize)
    requires
        src_start + count <= dst,
        dst + count <= old(g)@.len(),
    ensures
        final(g)@.len() == old(g)@.len(),
        forall|i: int| dst <= i < dst + count ==> final(g)@[i] == old(g)@[src_start + i - dst],
        forall|i: int|
            0 <= i < old(g)@.len() && !(dst <= i < dst + count) ==> final(g)@[i] == old(g)@[i],
{
    let mut i: usize = 0;
    while i < count
        invariant
            0 <= i <= count,
            src_start + count <= dst,
            dst + count <= g.len(),
            g@.len() == old(g)@.len(),
            forall|j: int| dst <= j < dst + i ==> g@[j] == old(g)@[src_start + j - dst],
            forall|j: int|
                0 <= j < g@.len() && !(dst <= j < dst + i) ==> g@[j] == old(g)@[j],
        decreases count - i,
    {
        g[dst + i] = g[src_start + i];
        i += 1;
    }
}

/// The word before word `j` of the `bw` words starting at `start`, going round
/// from the first word to the last.
pub open spec fn previous_word(s: Seq<u32>, start: int, bw: int, j: int) -> u32 {
    if j == 0 {
        s[start + bw - 1]
    } else {
        s[start + j - 1]
    }
}

/// Rotate the `32 * bw` bits held by the `bw` words of `g` that start at
/// `start` right by one bit.
pub(crate) fn rotate_words(g: &mut [u32], start: usize, bw: usize)
    requires
        0 < bw,
        start + bw <= old(g)@.len(),
    ensures
        final(g)@.len() == old(g)@.len(),
        forall|i: int|
            0 <= i < old(g)@.len() && !(start <= i < start + bw) ==> final(g)@[i] == old(g)@[i],
        forall|p: int|
            0 <= p < bw * 32 ==> row_bit(final(g)@, start as int, p) == row_bit(
                old(g)@,
                start as int,
                if p == 0 {
                    bw * 32 - 1
                } else {
                    p - 1
                },
            ),
{
    let ghost old_g = g@;
    let mut carry = g[start + bw - 1] & 1;
    let mut i: usize = 0;
    while i < bw
        invariant
            0 <= i <= bw,
            start + bw <= g.len(),
            g@.len() == old_g.len(),
            forall|j: int|
                0 <= j < g@.len() && !(start <= j < start + i) ==> g@[j] == old_g[j],
            forall|j: int|
                start <= j < start + i ==> g@[j] == ((previous_word(
                    old_g,
                    start as int,
                    bw as int,
                    j - start,
                ) & 1u32) << 31u32) | (old_g[j] >> 1u32),
            carry == previous_word(old_g, start as int, bw as int, i as int) & 1u32,
        decreases bw - i,
    {
        let word = g[start + i];
        let newcarry = word & 1;
        g[start + i] = (carry << 31) | (word >> 1);
        carry = newcarry;
        i += 1;
    }
    assert forall|p: int| 0 <= p < bw * 32 implies row_bit(g@, start as int, p) == row_bit(
        old_g,
        start as int,
        if p == 0 {
            bw * 32 - 1
        } else {
            p - 1
        },
    ) by {
        let j = p / 32;
        let m = p % 32;
        lemma_shift_in_carry(
            previous_word(old_g, start as int, bw as int, j),
            old_g[start + j],
            m as u32,
        );
    }
}

/// What rotating the word-aligned circulant number `q` of the row that starts
/// at word `rs` does to column `c` of that row.
proof fn lemma_rotated_word_circulant(
    mid: Seq<u32>,
    after: Seq<u32>,
    rs: int,
    b: int,
    q: int,
    c: int,
    start: int,
    bw: int,
)
    requires
        0 < bw,
        b == bw * 32,
        0 <= q,
        0 <= c,
        0 <= rs,
        start == rs + q * bw,
        rs + c / 32 < mid.len(),
        start + bw <= mid.len(),
        after.len() == mid.len(),
        forall|i: int| 0 <= i < mid.len() && !(start <= i < start + bw) ==> after[i] == mid[i],
        forall|p: int|
            0 <= p < bw * 32 ==> #[trigger] row_bit(after, start, p) == row_bit(
                mid,
                start,
                if p == 0 {
                    bw * 32 - 1
                } else {
                    p - 1
                },
            ),
    ensures
        row_bit(after, rs, c) == if c / b == q {
            row_bit(mid, rs, source_column(c, 1, b))
        } else {
            row_bit(mid, rs, c)
        },
{
    lemma_column_split(c, b);
    vstd::arithmetic::div_mod::lemma_mod_multiples_basic(bw, 32);
    vstd::arithmetic::div_mod::lemma_div_multiples_vanish(bw, 32);
    let qc = c / b;
    let pc = c % b;
    lemma_block_column(qc, pc, b);
    if qc == q {
        let ps = if pc == 0 {
            b - 1
        } else {
            pc - 1
        };
        lemma_block_column(qc, ps, b);
        assert(row_bit(after, rs, c) == row_bit(after, start, pc));
        assert(row_bit(after, start, pc) == row_bit(mid, start, ps));
        assert(row_bit(mid, start, ps) == row_bit(mid, rs, qc * b + ps));
        assert(source_column(c, 1, b) == qc * b + ps);
    } else {
        if qc < q {
            vstd::arithmetic::mul::lemma_mul_inequality(qc + 1, q, bw);
        } else {
            vstd::arithmetic::mul::lemma_mul_inequality(q + 1, qc, bw);
        }
        vstd::arithmetic::mul::lemma_mul_is_distributive_add(bw, qc, 1);
        vstd::arithmetic::mul::lemma_mul_is_distributive_add(bw, q, 1);
        assert(c / 32 == qc * bw + pc / 32);
        assert(pc / 32 < bw);
        assert(rs + c / 32 < start || rs + c / 32 >= start + bw);
        assert(after[rs + c / 32] == mid[rs + c / 32]);
    }
}

/// What rotating the half-word circulant number `q` of the row that starts at
/// word `rs` does to column `c` of that row.
proof fn lemma_rotated_half_circulant(mid: Seq<u32>, after: Seq<u32>, rs: int, q: int, c: int)
    requires
        0 <= q,
        0 <= c,
        0 <= rs,
        rs + c / 32 < mid.len(),
        rs + q / 2 < mid.len(),
        after.len() == mid.len(),
        forall|i: int| 0 <= i < mid.len() && i != rs + q / 2 ==> after[i] == mid[i],
        after[rs + q / 2] == rotate_half_spec(
            mid[rs + q / 2],
            if q % 2 == 0 {
                16u32
            } else {
                0u32
            },
        ),
    ensures
        row_bit(after, rs, c) == if c / 16 == q {
            row_bit(mid, rs, source_column(c, 1, 16))
        } else {
            row_bit(mid, rs, c)
        },
{
    let x = mid[rs + q / 2];
    let shift: u32 = if q % 2 == 0 {
        16
    } else {
        0
    };
    let m = c % 32;
    if c / 32 == q / 2 {
        lemma_rotate_half(x, shift, m as u32);
        assert(row_bit(after, rs, c) == word_bit(rotate_half_spec(x, shift), m as u32));
        if c / 16 == q {
            let sc = source_column(c, 1, 16);
            assert(sc / 32 == c / 32);
            assert(row_bit(mid, rs, sc) == word_bit(x, (sc % 32) as u32));
        } else {
            assert(row_bit(mid, rs, c) == word_bit(x, m as u32));
        }
    } else {
        assert(after[rs + c / 32] == mid[rs + c / 32]);
    }
}

/// Rotate every circulant of width `b` in the row of `r` bits that starts at
/// word `rs` of `g` right by one column.
///
/// Circulants are either a whole number of words wide, or half a word.
pub(crate) fn rotate_row(g: &mut [u32], rs: usize, r: usize, b: usize)
    requires
        0 < r,
        r % 32 == 0,
        rs + r / 32 <= old(g)@.len(),
        b == 16 || (0 < b && b % 32 == 0),
        r % b == 0,
    ensures
        final(g)@.len() == old(g)@.len(),
        forall|i: int|
            0 <= i < old(g)@.len() && !(rs <= i < rs + r / 32) ==> final(g)@[i] == old(g)@[i],
        forall|c: int|
            0 <= c < r ==> row_bit(final(g)@, rs as int, c) == row_bit(
                old(g)@,
                rs as int,
                source_column(c, 1, b as int),
            ),
{
    let ghost old_g = g@;
    let ghost w = r / 32;
    let blocks = r / b;
    let mut q: usize = 0;
    while q < blocks
        invariant
            0 <= q <= blocks,
            blocks == r / b,
            0 < r,
            r % 32 == 0,
            w == r / 32,
            rs + w <= g.len(),
            b == 16 || (0 < b && b % 32 == 0),
            r % b == 0,
            g@.len() == old_g.len(),
            forall|i: int| 0 <= i < g@.len() && !(rs <= i < rs + w) ==> g@[i] == old_g[i],
            forall|c: int|
                0 <= c < r ==> #[trigger] row_bit(g@, rs as int, c) == if c / (b as int) < q {
                    row_bit(old_g, rs as int, source_column(c, 1, b as int))
                } else {
                    row_bit(old_g, rs as int, c)
                },
        decreases blocks - q,
    {
        let ghost mid = g@;
        proof {
            lemma_column_split(r as int, b as int);
            vstd::arithmetic::mul::lemma_mul_inequality(q as int + 1, blocks as int, b as int);
        }
        if b >= 32 {
            // Circulants of whole words: carry each word's low bit into the
            // top of the next word, the last word's into the first.
            let bw = b / 32;
            proof {
                vstd::arithmetic::div_mod::lemma_fundamental_div_mod(b as int, 32);
                lemma_column_split(r as int, b as int);
                assert(q * bw + bw <= w) by (nonlinear_arith)
                    requires
                        q < blocks,
                        blocks * b == r,
                        b == 32 * bw,
                        r == 32 * w,
                        0 < bw,
                ;
            }
            let start = rs + q * bw;
            rotate_words(g, start, bw);
            assert forall|c: int| 0 <= c < r implies #[trigger] row_bit(g@, rs as int, c) == if c
                / (b as int) < q + 1 {
                row_bit(old_g, rs as int, source_column(c, 1, b as int))
            } else {
                row_bit(old_g, rs as int, c)
            } by {
                lemma_rotated_word_circulant(
                    mid,
                    g@,
                    rs as int,
                    b as int,
                    q as int,
                    c,
                    start as int,
                    bw as int,
                );
                if c / (b as int) == q {
                    lemma_source_in_row(c, 1, b as int, r as int);
                    assert(row_bit(mid, rs as int, source_column(c, 1, b as int)) == row_bit(
                        old_g,
                        rs as int,
                        source_column(c, 1, b as int),
                    ));
                }
            }
        } else {
            // Circulants of half a word: rotate the half in place. The
            // requirement leaves no other width.
            let byteidx = q * 2;
            let shift: u32 = if byteidx % 4 == 0 {
                16
            } else {
                0
            };
            let idx = rs + byteidx / 4;
            let x = g[idx];
            let mut block = (x >> shift) & 0xFFFF;
            block = ((block & 1) << 15) | (block >> 1);
            g[idx] = x & !(0xFFFF << shift);
            g[idx] = g[idx] | (block << shift);
            assert(g@[idx as int] == rotate_half_spec(x, shift));
            assert forall|c: int| 0 <= c < r implies #[trigger] row_bit(g@, rs as int, c) == if c
                / (b as int) < q + 1 {
                row_bit(old_g, rs as int, source_column(c, 1, b as int))
            } else {
                row_bit(old_g, rs as int, c)
            } by {
                lemma_rotated_half_circulant(mid, g@, rs as int, q as int, c);
                if c / 16 == q {
                    lemma_source_in_row(c, 1, 16, r as int);
                    assert(row_bit(mid, rs as int, source_column(c, 1, 16)) == row_bit(
                        old_g,
                        rs as int,
                        source_column(c, 1, 16),
                    ));
                }
            }
        }
        q += 1;
    }
    assert forall|c: int| 0 <= c < r implies row_bit(g@, rs as int, c) == row_bit(
        old_g,
        rs as int,
        source_column(c, 1, b as int),
    ) by {
        assert(row_bit(g@, rs as int, c) == if c / (b as int) < q {
            row_bit(old_g, rs as int, source_column(c, 1, b as int))
        } else {
            row_bit(old_g, rs as int, c)
        });
        lemma_column_split(c, b as int);
        lemma_column_split(r as int, b as int);
        if c / (b as int) >= blocks {
            vstd::arithmetic::mul::lemma_mul_inequality(blocks as int, c / (b as int), b as int);
        }
    }
}

} // verus!
