//! The supported codes, their parameters, and generator-matrix expansion.
use vstd::prelude::*;

use crate::bits::{be_word, lemma_be_word_involutive, row_bit, to_be_u32, word_bit};
use crate::generator::{
    copy_words, copy_words_within, generator_bit, lemma_row_of_block, lemma_source_first,
    lemma_source_in_row, lemma_source_step, rotate_row,
};
use crate::tables::{TC128_G, TC256_G, TC512_G, TM1280_G, TM1536_G, TM2048_G};

verus! {

/// Available LDPC codes.
///
/// The TC codes are the Telecommand codes from CCSDS document 231.1-O-1.
/// The TM codes are the Telemetry codes from CCSDS document 131.0-B-2.
pub enum LDPCCode {
    TC128,
    TC256,
    TC512,
    TM1280,
    TM1536,
    TM2048,
}

/// Every supported code, in a fixed order.
pub const CODES: [LDPCCode; 6] = [
    LDPCCode::TC128,
    LDPCCode::TC256,
    LDPCCode::TC512,
    LDPCCode::TM1280,
    LDPCCode::TM1536,
    LDPCCode::TM2048,
];

/// Parameters for a given LDPC code.
///
/// `n` is the block length (number of bits transmitted/received).
/// `k` is the data length (number of bits of user information).
/// `punctured_bits` is the number of parity bits not transmitted
/// `submatrix_size` is the sub-matrix size (used in code construction)
/// `circulant_size` is the circulant block size (used in code construction)
/// `parity_sum` is the sum of the H matrix (number of parity check edges)
pub struct CodeParams {
    pub code: LDPCCode,
    pub n: usize,
    pub k: usize,
    pub punctured_bits: usize,
    pub submatrix_size: usize,
    pub circulant_size: usize,
    pub parity_sum: u32,
}

impl CodeParams {
    /// Number of 32-bit words in one row of the parity part of the generator.
    pub open spec fn row_words(&self) -> int {
        (self.n - self.k) / 32
    }

    /// Number of circulant blocks of rows in the generator (`k / circulant_size`).
    pub open spec fn row_blocks(&self) -> int {
        self.k as int / self.circulant_size as int
    }

    /// The shape facts that generator expansion relies on: the parity part is
    /// a whole number of words wide, and both the data length and the parity
    /// length are whole numbers of circulants, each either half a word or a
    /// whole number of words wide.
    pub open spec fn wf(&self) -> bool {
        &&& 0 < self.k < self.n <= 2048
        &&& self.punctured_bits <= self.n - self.k
        &&& (self.n - self.k) % 32 == 0
        &&& 0 < self.circulant_size
        &&& self.k % self.circulant_size == 0
        &&& (self.n - self.k) % (self.circulant_size as int) == 0
        &&& (self.circulant_size == 16 || self.circulant_size % 32 == 0)
    }
}

/// Division that is known to be exact.
proof fn lemma_div_exact(a: int, b: int, q: int)
    requires
        0 < b,
        a == q * b,
    ensures
        a / b == q,
{
    vstd::arithmetic::div_mod::lemma_div_multiples_vanish(q, b);
}

impl LDPCCode {
    /// The parameters of each code, as tabulated by the CCSDS documents.
    pub open spec fn spec_params(self) -> CodeParams {
        match self {
            LDPCCode::TC128 => CodeParams {
                code: LDPCCode::TC128,
                n: 128,
                k: 64,
                punctured_bits: 0,
                submatrix_size: 16,
                circulant_size: 16,
                parity_sum: 512,
            },
            LDPCCode::TC256 => CodeParams {
                code: LDPCCode::TC256,
                n: 256,
                k: 128,
                punctured_bits: 0,
                submatrix_size: 32,
                circulant_size: 32,
                parity_sum: 1024,
            },
            LDPCCode::TC512 => CodeParams {
                code: LDPCCode::TC512,
                n: 512,
                k: 256,
                punctured_bits: 0,
                submatrix_size: 64,
                circulant_size: 64,
                parity_sum: 2048,
            },
            LDPCCode::TM1280 => CodeParams {
                code: LDPCCode::TM1280,
                n: 1280,
                k: 1024,
                punctured_bits: 128,
                submatrix_size: 128,
                circulant_size: 32,
                parity_sum: 4992,
            },
            LDPCCode::TM1536 => CodeParams {
                code: LDPCCode::TM1536,
                n: 1536,
                k: 1024,
                punctured_bits: 256,
                submatrix_size: 256,
                circulant_size: 64,
                parity_sum: 5888,
            },
            LDPCCode::TM2048 => CodeParams {
                code: LDPCCode::TM2048,
                n: 2048,
                k: 1024,
                punctured_bits: 512,
                submatrix_size: 512,
                circulant_size: 128,
                parity_sum: 7680,
            },
        }
    }

    /// Size in bytes of the parity part of the full generator matrix,
    /// `k * (n - k) / 8`.
    pub open spec fn spec_generator_u8s(self) -> int {
        self.spec_params().k * (self.spec_params().n - self.spec_params().k) / 8
    }

    /// Length in 32-bit words of the parity part of the full generator matrix.
    pub open spec fn spec_generator_u32s(self) -> int {
        self.spec_generator_u8s() / 4
    }

    /// The compact generator matrix of each code: for every block of
    /// `circulant_size` rows, the first row of the block.
    pub open spec fn spec_compact_generator(self) -> Seq<u32> {
        match self {
            LDPCCode::TC128 => TC128_G@,
            LDPCCode::TC256 => TC256_G@,
            LDPCCode::TC512 => TC512_G@,
            LDPCCode::TM1280 => TM1280_G@,
            LDPCCode::TM1536 => TM1536_G@,
            LDPCCode::TM2048 => TM2048_G@,
        }
    }

    /// Get the code parameters for a specific LDPC code
    pub fn params(&self) -> (r: &'static CodeParams)
        ensures
            *r == self.spec_params(),
            r.wf(),
    {
        match *self {
            LDPCCode::TC128 => &CodeParams {
                code: LDPCCode::TC128,
                n: 128,
                k: 64,
                punctured_bits: 0,
                submatrix_size: 128 / 8,
                circulant_size: 128 / 8,
                parity_sum: 512,
            },
            LDPCCode::TC256 => &CodeParams {
                code: LDPCCode::TC256,
                n: 256,
                k: 128,
                punctured_bits: 0,
                submatrix_size: 256 / 8,
                circulant_size: 256 / 8,
                parity_sum: 1024,
            },
            LDPCCode::TC512 => &CodeParams {
                code: LDPCCode::TC512,
                n: 512,
                k: 256,
                punctured_bits: 0,
                submatrix_size: 512 / 8,
                circulant_size: 512 / 8,
                parity_sum: 2048,
            },
            LDPCCode::TM1280 => &CodeParams {
                code: LDPCCode::TM1280,
                n: 1280,
                k: 1024,
                punctured_bits: 128,
                submatrix_size: 128,
                circulant_size: 128 / 4,
                parity_sum: 4992,
            },
            LDPCCode::TM1536 => &CodeParams {
                code: LDPCCode::TM1536,
                n: 1536,
                k: 1024,
                punctured_bits: 256,
                submatrix_size: 256,
                circulant_size: 256 / 4,
                parity_sum: 5888,
            },
            LDPCCode::TM2048 => &CodeParams {
                code: LDPCCode::TM2048,
                n: 2048,
                k: 1024,
                punctured_bits: 512,
                submatrix_size: 512,
                circulant_size: 512 / 4,
                parity_sum: 7680,
            },
        }
    }

    /// The shape of a code's generator: the compact generator holds one row
    /// of `row_words` words for each of the `row_blocks` blocks of
    /// `circulant_size` rows, which make up the `k` rows of the full
    /// generator, whose `generator_u32s` words are `k` rows of `row_words`
    /// words, four bytes each.
    pub proof fn lemma_generator_shape(self)
        ensures
            self.spec_compact_generator().len() == self.spec_params().row_blocks()
                * self.spec_params().row_words(),
            self.spec_params().row_blocks() * self.spec_params().circulant_size
                == self.spec_params().k,
            self.spec_generator_u32s() == self.spec_params().k * self.spec_params().row_words(),
            self.spec_generator_u8s() == 4 * self.spec_generator_u32s(),
    {
        let p = self.spec_params();
        match self {
            LDPCCode::TC128 => {
                lemma_div_exact(p.k as int, p.circulant_size as int, 4);
                assert(p.row_words() == 2);
                assert(p.row_blocks() * p.row_words() == 4 * 2);
                assert(self.spec_generator_u8s() == 512);
                assert(p.k * p.row_words() == 64 * 2);
            },
            LDPCCode::TC256 => {
                lemma_div_exact(p.k as int, p.circulant_size as int, 4);
                assert(p.row_words() == 4);
                assert(p.row_blocks() * p.row_words() == 4 * 4);
                assert(self.spec_generator_u8s() == 2048);
                assert(p.k * p.row_words() == 128 * 4);
            },
            LDPCCode::TC512 => {
                lemma_div_exact(p.k as int, p.circulant_size as int, 4);
                assert(p.row_words() == 8);
                assert(p.row_blocks() * p.row_words() == 4 * 8);
                assert(self.spec_generator_u8s() == 8192);
                assert(p.k * p.row_words() == 256 * 8);
            },
            LDPCCode::TM1280 => {
                lemma_div_exact(p.k as int, p.circulant_size as int, 32);
                assert(p.row_words() == 8);
                assert(p.row_blocks() * p.row_words() == 32 * 8);
                assert(self.spec_generator_u8s() == 32768);
                assert(p.k * p.row_words() == 1024 * 8);
            },
            LDPCCode::TM1536 => {
                lemma_div_exact(p.k as int, p.circulant_size as int, 16);
                assert(p.row_words() == 16);
                assert(p.row_blocks() * p.row_words() == 16 * 16);
                assert(self.spec_generator_u8s() == 65536);
                assert(p.k * p.row_words() == 1024 * 16);
            },
            LDPCCode::TM2048 => {
                lemma_div_exact(p.k as int, p.circulant_size as int, 8);
                assert(p.row_words() == 32);
                assert(p.row_blocks() * p.row_words() == 8 * 32);
                assert(self.spec_generator_u8s() == 131072);
                assert(p.k * p.row_words() == 1024 * 32);
            },
        }
    }

    /// The compact generator matrix of this code.
    fn compact_generator(&self) -> (r: &'static [u32])
        ensures
            r@ == self.spec_compact_generator(),
            r@.len() == self.spec_params().row_blocks() * self.spec_params().row_words(),
    {
        proof {
            self.lemma_generator_shape();
        }
        match *self {
            LDPCCode::TC128 => &TC128_G,
            LDPCCode::TC256 => &TC256_G,
            LDPCCode::TC512 => &TC512_G,
            LDPCCode::TM1280 => &TM1280_G,
            LDPCCode::TM1536 => &TM1536_G,
            LDPCCode::TM2048 => &TM2048_G,
        }
    }

    /// Get the size (in u8s) required for the full generator matrix.
    /// Equal to k*(n-k) / 8.
    pub fn generator_u8s(&self) -> (r: usize)
        ensures
            r == self.spec_generator_u8s(),
    {
        let params = self.params();
        proof {
            vstd::arithmetic::mul::lemma_mul_upper_bound(
                params.k as int,
                2048,
                (params.n - params.k) as int,
                2048,
            );
        }
        (params.k * (params.n - params.k)) / 8
    }

    /// Get the length (in u32s) required for the full generator matrix.
    /// Equal to generator_u8s()/4.
    pub fn generator_u32s(&self) -> (r: usize)
        ensures
            r == self.spec_generator_u32s(),
    {
        self.generator_u8s() / 4
    }

    /// `g` is the parity part of this code's full generator matrix, every
    /// word stored big-endian: `k` rows of `(n - k) / 32` words, in which
    /// row `j * circulant_size + t` is the compact generator's row `j` with
    /// each circulant rotated right by `t` columns.
    pub open spec fn is_expanded_generator(self, g: Seq<u32>) -> bool {
        let p = self.spec_params();
        let w = p.row_words();
        &&& g.len() == p.k * w
        &&& forall|row: int, c: int|
            0 <= row < p.k && 0 <= c < p.n - p.k ==> word_bit(
                be_word(g[row * w + c / 32]),
                (c % 32) as u32,
            ) == #[trigger] generator_bit(
                self.spec_compact_generator(),
                p.circulant_size as int,
                w,
                row,
                c,
            )
    }

    /// Initialise a full generator matrix, expanded from the compact circulant
    /// form.
    ///
    /// This allows quicker encoding at the cost of higher memory usage.
    /// Note that this will only initialise the parity part of G, and not the
    /// identity matrix, since all supported codes are systematic. This matches
    /// what's expected by the non-compact encoder function.
    pub fn init_generator(&self, g: &mut [u32])
        requires
            old(g)@.len() == self.spec_generator_u32s(),
        ensures
            final(g)@.len() == old(g)@.len(),
            self.is_expanded_generator(final(g)@),
    {
        let params = self.params();
        let gc = self.compact_generator();
        let b = params.circulant_size;
        let r = params.n - params.k;
        let w = r / 32;
        let blocks = params.k / b;
        let ghost k = params.k as int;
        proof {
            self.lemma_generator_shape();
        }

        // For each block of the output matrix
        let mut blockidx: usize = 0;
        while blockidx < blocks
            invariant
                params.wf(),
                *params == self.spec_params(),
                gc@ == self.spec_compact_generator(),
                gc@.len() == blocks * w,
                b == params.circulant_size,
                r == params.n - params.k,
                w == r / 32,
                k == params.k,
                blocks == params.k / b,
                blocks * b == k,
                g@.len() == k * w,
                g.len() == k * w,
                0 <= blockidx <= blocks,
                forall|row: int, c: int|
                    0 <= row < blockidx * b && 0 <= c < r ==> row_bit(g@, row * w, c)
                        == #[trigger] generator_bit(gc@, b as int, w as int, row, c),
            decreases blocks - blockidx,
        {
            proof {
                assert(blockidx * b + b <= k) by (nonlinear_arith)
                    requires
                        blockidx < blocks,
                        blocks * b == k,
                ;
                assert((blockidx * b) * w + w <= k * w) by (nonlinear_arith)
                    requires
                        blockidx * b + b <= k,
                        0 < b,
                        0 <= w,
                ;
                assert(blockidx * w + w <= blocks * w) by (nonlinear_arith)
                    requires
                        blockidx < blocks,
                        0 <= w,
                ;
            }
            let first = blockidx * b;
            // Copy the first row from the compact matrix
            let ghost before = g@;
            copy_words(g, first * w, gc, blockidx * w, w);
            assert forall|row: int, c: int|
                0 <= row < first + 1 && 0 <= c < r implies row_bit(g@, row * w, c)
                == #[trigger] generator_bit(gc@, b as int, w as int, row, c) by {
                if row < first {
                    assert(row * w + w <= first * w) by (nonlinear_arith)
                        requires
                            row < first,
                            0 <= w,
                    ;
                    assert(g@[row * w + c / 32] == before[row * w + c / 32]);
                    assert(row_bit(g@, row * w, c) == row_bit(before, row * w, c));
                } else {
                    lemma_row_of_block(blockidx as int, 0, b as int);
                    lemma_source_first(c, b as int);
                    assert(row_bit(g@, row * w, c) == row_bit(gc@, blockidx * w, c));
                }
            }

            // For each subsequent row, copy from the row above and then
            // rotate right by one.
            let mut rowidx: usize = 1;
            while rowidx < b
                invariant
                    params.wf(),
                    *params == self.spec_params(),
                    gc@ == self.spec_compact_generator(),
                    gc@.len() == blocks * w,
                    b == params.circulant_size,
                    r == params.n - params.k,
                    w == r / 32,
                    k == params.k,
                    blocks == params.k / b,
                    blocks * b == k,
                    g@.len() == k * w,
                    g.len() == k * w,
                    0 <= blockidx < blocks,
                    first == blockidx * b,
                    first + b <= k,
                    1 <= rowidx <= b,
                    forall|row: int, c: int|
                        0 <= row < first + rowidx && 0 <= c < r ==> row_bit(g@, row * w, c)
                            == #[trigger] generator_bit(gc@, b as int, w as int, row, c),
                decreases b - rowidx,
            {
                let row = first + rowidx;
                proof {
                    assert(row * w + w <= k * w && (row - 1) * w + w == row * w) by (nonlinear_arith)
                        requires
                            row < k,
                            0 <= w,
                    ;
                }
                let ghost before = g@;
                copy_words_within(g, row * w, (row - 1) * w, w);
                let ghost copied = g@;
                rotate_row(g, row * w, r, b);
                assert forall|rw: int, c: int|
                    0 <= rw < row + 1 && 0 <= c < r implies row_bit(g@, rw * w, c)
                    == #[trigger] generator_bit(gc@, b as int, w as int, rw, c) by {
                    if rw < row {
                        assert(rw * w + w <= row * w) by (nonlinear_arith)
                            requires
                                rw < row,
                                0 <= w,
                        ;
                        assert(g@[rw * w + c / 32] == before[rw * w + c / 32]);
                        assert(row_bit(g@, rw * w, c) == row_bit(before, rw * w, c));
                    } else {
                        let sc = crate::generator::source_column(c, 1, b as int);
                        lemma_source_in_row(c, 1, b as int, r as int);
                        assert(row_bit(g@, rw * w, c) == row_bit(copied, rw * w, sc));
                        assert(row_bit(copied, rw * w, sc) == row_bit(before, (rw - 1) * w, sc));
                        assert(row_bit(before, (rw - 1) * w, sc) == generator_bit(
                            gc@,
                            b as int,
                            w as int,
                            rw - 1,
                            sc,
                        ));
                        lemma_row_of_block(blockidx as int, rowidx as int, b as int);
                        lemma_row_of_block(blockidx as int, rowidx as int - 1, b as int);
                        lemma_source_step(c, rowidx as int, b as int);
                    }
                }
                rowidx += 1;
            }
            assert(first + b == (blockidx + 1) * b) by (nonlinear_arith)
                requires
                    first == blockidx * b,
            ;
            blockidx += 1;
        }

        // We'll be using this generator matrix by XORing with data interpreted
        // as u32, but that data will have been a u8 array, so the bytes will
        // be the wrong way around on little endian platforms.
        // Instead of fixing this at encode time, we can fix it once here.
        let ghost logical = g@;
        let mut i: usize = 0;
        while i < g.len()
            invariant
                g@.len() == logical.len(),
                0 <= i <= g@.len(),
                forall|j: int| 0 <= j < i ==> g@[j] == be_word(logical[j]),
                forall|j: int| i <= j < g@.len() ==> g@[j] == logical[j],
            decreases g@.len() - i,
        {
            g[i] = to_be_u32(g[i]);
            i += 1;
        }
        assert forall|row: int, c: int|
            0 <= row < k && 0 <= c < r implies word_bit(
            be_word(g@[row * w + c / 32]),
            (c % 32) as u32,
        ) == #[trigger] generator_bit(
            self.spec_compact_generator(),
            b as int,
            w as int,
            row,
            c,
        ) by {
            assert(row_bit(logical, row * w, c) == generator_bit(gc@, b as int, w as int, row, c));
            assert(row * w + w <= k * w) by (nonlinear_arith)
                requires
                    row < k,
                    0 <= w,
            ;
            lemma_be_word_involutive(logical[row * w + c / 32]);
        }
    }
}

/// Every code's parameters have the shape that generator expansion relies on,
/// and its compact generator is `k / circulant_size` rows of `(n - k) / 32`
/// words.
pub proof fn params_are_well_formed(code: LDPCCode)
    ensures
        code.spec_params().wf(),
        code.spec_compact_generator().len() == code.spec_params().row_blocks()
            * code.spec_params().row_words(),
{
    code.lemma_generator_shape();
    match code {
        LDPCCode::TC128 => {},
        LDPCCode::TC256 => {},
        LDPCCode::TC512 => {},
        LDPCCode::TM1280 => {},
        LDPCCode::TM1536 => {},
        LDPCCode::TM2048 => {},
    }
}

/// The full generator takes exactly `generator_u32s` words, four bytes each,
/// so `generator_u8s` is four times `generator_u32s`; and it is `k` rows of
/// `(n - k) / 32` words.
pub proof fn generator_size_law(code: LDPCCode)
    ensures
        code.spec_generator_u8s() == 4 * code.spec_generator_u32s(),
        code.spec_generator_u32s() == code.spec_params().k * code.spec_params().row_words(),
{
    code.lemma_generator_shape();
}

/// Within a block of `circulant_size` rows of an expanded generator, each row
/// after the first is the row above it with every circulant rotated right by
/// one column: column `c` of row `row` holds what column
/// `source_column(c, 1, circulant_size)` of row `row - 1` holds.
pub proof fn circulant_rows_law(code: LDPCCode, g: Seq<u32>, row: int, c: int)
    requires
        code.is_expanded_generator(g),
        0 < row < code.spec_params().k,
        row % (code.spec_params().circulant_size as int) != 0,
        0 <= c < code.spec_params().n - code.spec_params().k,
    ensures
        ({
            let p = code.spec_params();
            let w = p.row_words();
            let sc = crate::generator::source_column(c, 1, p.circulant_size as int);
            word_bit(be_word(g[row * w + c / 32]), (c % 32) as u32) == word_bit(
                be_word(g[(row - 1) * w + sc / 32]),
                (sc % 32) as u32,
            )
        }),
{
    let p = code.spec_params();
    let b = p.circulant_size as int;
    let w = p.row_words();
    let gc = code.spec_compact_generator();
    params_are_well_formed(code);
    let sc = crate::generator::source_column(c, 1, b);
    lemma_source_in_row(c, 1, b, p.n - p.k);
    crate::generator::lemma_column_split(row, b);
    let j = row / b;
    let t = row % b;
    lemma_row_of_block(j, t - 1, b);
    assert(row - 1 == j * b + (t - 1));
    lemma_source_step(c, t, b);
    assert(generator_bit(gc, b, w, row, c) == generator_bit(gc, b, w, row - 1, sc));
}

/// The first row of each block of an expanded generator is the compact
/// generator's row for that block, word for word.
pub proof fn first_rows_law(code: LDPCCode, g: Seq<u32>, j: int, i: int)
    requires
        code.is_expanded_generator(g),
        0 <= j < code.spec_params().row_blocks(),
        0 <= i < code.spec_params().row_words(),
    ensures
        be_word(g[(j * code.spec_params().circulant_size) * code.spec_params().row_words() + i])
            == code.spec_compact_generator()[j * code.spec_params().row_words() + i],
{
    let p = code.spec_params();
    let b = p.circulant_size as int;
    let w = p.row_words();
    let gc = code.spec_compact_generator();
    params_are_well_formed(code);
    code.lemma_generator_shape();
    let row = j * b;
    assert(j * b + b <= p.k) by (nonlinear_arith)
        requires
            j < p.row_blocks(),
            p.row_blocks() * b == p.k,
            0 < b,
    ;
    assert(row * w + w <= p.k * w) by (nonlinear_arith)
        requires
            row + b <= p.k,
            0 < b,
            0 <= w,
    ;
    lemma_row_of_block(j, 0, b);
    let x = be_word(g[row * w + i]);
    assert forall|m: u32| m < 32 implies #[trigger] word_bit(x, m) == word_bit(gc[j * w + i], m) by {
        let c = i * 32 + m;
        lemma_source_first(c, b);
        assert(generator_bit(gc, b, w, row, c) == row_bit(gc, j * w, c));
    }
    crate::bits::lemma_word_ext(x, gc[j * w + i]);
}

/// The expanded generator of a code is unique: two expansions of the same
/// code are the same words.
pub proof fn expansion_is_unique(code: LDPCCode, g1: Seq<u32>, g2: Seq<u32>)
    requires
        code.is_expanded_generator(g1),
        code.is_expanded_generator(g2),
    ensures
        g1 == g2,
{
    let p = code.spec_params();
    let b = p.circulant_size as int;
    let w = p.row_words();
    let gc = code.spec_compact_generator();
    params_are_well_formed(code);
    assert forall|x: int| 0 <= x < g1.len() implies g1[x] == g2[x] by {
        crate::generator::lemma_column_split(x, w);
        let row = x / w;
        let i = x % w;
        assert(row < p.k) by (nonlinear_arith)
            requires
                x < p.k * w,
                x == row * w + i,
                0 <= i < w,
        ;
        let y1 = be_word(g1[x]);
        let y2 = be_word(g2[x]);
        assert forall|m: u32| m < 32 implies #[trigger] word_bit(y1, m) == word_bit(y2, m) by {
            let c = i * 32 + m;
            assert(c / 32 == i && c % 32 == m);
            assert(row * w + c / 32 == x);
            assert(c < p.n - p.k);
            assert(word_bit(be_word(g1[row * w + c / 32]), (c % 32) as u32) == generator_bit(
                gc,
                b,
                w,
                row,
                c,
            ));
            assert(word_bit(be_word(g2[row * w + c / 32]), (c % 32) as u32) == generator_bit(
                gc,
                b,
                w,
                row,
                c,
            ));
            assert((c % 32) as u32 == m);
        }
        crate::bits::lemma_word_ext(y1, y2);
        lemma_be_word_involutive(g1[x]);
        lemma_be_word_involutive(g2[x]);
    }
    assert(g1 =~= g2);
}

} // verus!
