//! An iterated permutation-based hash over the Mersenne-prime field
//! `GF(2^63 - 1)`: a fixed 3-round permutation on a 3-lane state, packed
//! into 32-byte digests, applied `n` times starting from the all-zero
//! digest, with the final digest exposed as eight big-endian 32-bit words.

pub mod field;
pub mod permutation;
