use poseidon_chain::field::FIELD_MODULUS;
use poseidon_chain::permutation::{
    digest_words, hash_chain, parse_iterations, poseidon_hash, poseidon_round, ROUND_KEY_0,
};

/// Digest after one permutation of the all-zero digest, as bytes.
const DIGEST_1: [u8; 32] = [
    0xe8, 0x06, 0x34, 0x8b, 0xe9, 0x0f, 0xca, 0x12, 0x63, 0x88, 0x7a, 0x59, 0xe2, 0xb6, 0x7b,
    0x41, 0x6c, 0x2b, 0xb8, 0xd0, 0x4c, 0x40, 0x63, 0x09, 0, 0, 0, 0, 0, 0, 0, 0,
];

/// The same digest re-chunked as big-endian 32-bit words.
const WORDS_1: [u32; 8] = [
    0xe806348b, 0xe90fca12, 0x63887a59, 0xe2b67b41, 0x6c2bb8d0, 0x4c406309, 0, 0,
];

#[test]
fn test_round_identity_key_zero() {
    // Key 0 injects nothing and sbox(1) == 1, so only the mixing layer acts:
    // (1,2,3) -> (1+2+3, 1+2*2+3, 1+2+3*3).
    let mut state = [1u64, 2, 3];
    poseidon_round(&mut state, 0);
    assert_eq!(state, [6, 8, 12]);
}

#[test]
fn test_round_first_key_from_zero_state() {
    // From the zero state the mixing inputs are (sbox(key), 0, 0), so all
    // three lanes equal sbox(ROUND_KEY_0).
    let mut state = [0u64, 0, 0];
    poseidon_round(&mut state, ROUND_KEY_0);
    assert_eq!(state, [
        5519989519681294534,
        5519989519681294534,
        5519989519681294534,
    ]);
    assert!(state[0] < FIELD_MODULUS);
}

#[test]
fn test_permute_zero_digest_known_vector() {
    let out = poseidon_hash(&[0u8; 32]);
    assert_eq!(out, DIGEST_1);
}

#[test]
fn test_zero_iterations_yields_zero_digest() {
    let digest = hash_chain(0);
    assert_eq!(digest, [0u8; 32]);
    assert_eq!(digest_words(&digest), [0u32; 8]);
}

#[test]
fn test_known_vector_one_iteration() {
    let digest = hash_chain(1);
    assert_eq!(digest, DIGEST_1);
    assert_eq!(digest_words(&digest), WORDS_1);
}

#[test]
fn test_determinism() {
    let first = hash_chain(3);
    let second = hash_chain(3);
    assert_eq!(first, second);
    assert_eq!(digest_words(&first), digest_words(&second));
}

#[test]
fn test_chain_is_sequential_fold() {
    let mut digest = [0u8; 32];
    for _ in 0..5 {
        digest = poseidon_hash(&digest);
    }
    assert_eq!(hash_chain(5), digest);
}

#[test]
fn test_parse_rejects_short_and_long_input() {
    assert_eq!(parse_iterations(&[0u8; 7]), None);
    assert_eq!(parse_iterations(&[0u8; 9]), None);
    assert_eq!(parse_iterations(&[]), None);
}

#[test]
fn test_parse_accepts_eight_bytes() {
    let input = [5u8, 0, 0, 0, 0, 0, 0, 0];
    assert_eq!(parse_iterations(&input), Some(5));
    let input = [0xef, 0xcd, 0xab, 0x90, 0x78, 0x56, 0x34, 0x12];
    assert_eq!(parse_iterations(&input), Some(0x1234567890abcdef));
}

#[test]
fn test_five_iterations_known_vector() {
    let n = parse_iterations(&[5u8, 0, 0, 0, 0, 0, 0, 0]).unwrap();
    let digest = hash_chain(n);
    assert_eq!(digest_words(&digest), [
        0x6a56b1e1, 0x04284f2b, 0x5ee1af74, 0xa6e5a576, 0x13d05f2a, 0x9c614e61, 0, 0,
    ]);
}

#[test]
fn test_tail_bytes_stay_zero() {
    let digest = hash_chain(4);
    assert_eq!(&digest[24..32], &[0u8; 8]);
}

#[test]
fn test_no_ordering_between_successive_digests() {
    // Successive digests are unordered: between n = 1 and n = 2 some words
    // decrease while others increase. Only exact equality is meaningful.
    let w1 = digest_words(&hash_chain(1));
    let w2 = digest_words(&hash_chain(2));
    assert_ne!(w1, w2);
    assert!(w1[0] > w2[0]);
    assert!(w1[5] < w2[5]);
}
