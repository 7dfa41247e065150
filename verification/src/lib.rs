//! Parameters of the CCSDS LDPC codes and expansion of their compact
//! generator matrices into full (parity part) generator matrices.
pub mod bits;
pub mod codes;
pub mod generator;
pub mod tables;
