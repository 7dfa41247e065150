# lib: CCSDS LDPC code parameters and generator expansion, verified with Verus

- `src/codes.rs`: the supported codes (`LDPCCode`), their parameters
  (`CodeParams`, `LDPCCode::params`), the generator sizes, and
  `LDPCCode::init_generator`, which expands a code's compact circulant
  generator into the parity part of its full generator matrix. The laws of
  the expansion (row structure within a circulant block, first rows, and
  uniqueness of the result) are proof functions at the end of the file.
- `src/generator.rs`: row-level steps of the expansion (copying rows,
  rotating circulants by one column) and the specification of an expanded
  generator bit (`generator_bit`).
- `src/bits.rs`: the most-significant-bit-first view of `u32` words, the
  half-word rotation, and the big-endian byte order of the stored words.
- `src/tables.rs`: the compact generator tables (public) and the
  parity-check tables.
- `tests/codes.rs`: the tests, including CRC32 checks of every expanded
  generator.
