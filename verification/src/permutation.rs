//! The fixed 3-round permutation on a 3-lane state, the 32-byte digest
//! packing around it, the sequential iteration driver, and the two
//! boundary codecs: a little-endian iteration count read from 8 input
//! bytes, and the digest re-chunked as eight big-endian 32-bit words.

use vstd::prelude::*;
use crate::field::{
    addm, field_add, field_mul, mulm, sbox, sbox_spec, sum_reduced_once, FIELD_MODULUS,
};

verus! {

/// Round key of the first round.
pub const ROUND_KEY_0: u64 = 0x1234567890abcdef;

/// Round key of the second round. Exceeds the field modulus and is
/// injected unreduced.
pub const ROUND_KEY_1: u64 = 0xfedcba0987654321;

/// Round key of the third round. Exceeds the field modulus and is
/// injected unreduced.
pub const ROUND_KEY_2: u64 = 0xdeadbeefcafebabe;

/// The unsigned integer held little-endian in an 8-byte sequence.
pub open spec fn le_u64_of(s: Seq<u8>) -> int
    recommends
        s.len() == 8,
{
    s[0] + s[1] * 0x100 + s[2] * 0x10000 + s[3] * 0x1000000 + s[4] * 0x100000000 + s[5]
        * 0x10000000000 + s[6] * 0x1000000000000 + s[7] * 0x100000000000000
}

/// The little-endian 8-byte encoding of an integer below `2^64`.
pub open spec fn le_bytes_of(x: int) -> Seq<u8>
    recommends
        0 <= x < 0x10000000000000000,
{
    seq![
        (x % 0x100) as u8,
        ((x / 0x100) % 0x100) as u8,
        ((x / 0x10000) % 0x100) as u8,
        ((x / 0x1000000) % 0x100) as u8,
        ((x / 0x100000000) % 0x100) as u8,
        ((x / 0x10000000000) % 0x100) as u8,
        ((x / 0x1000000000000) % 0x100) as u8,
        ((x / 0x100000000000000) % 0x100) as u8,
    ]
}

/// The unsigned integer held big-endian in a 4-byte sequence.
pub open spec fn be_u32_of(s: Seq<u8>) -> int
    recommends
        s.len() == 4,
{
    s[0] * 0x1000000 + s[1] * 0x10000 + s[2] * 0x100 + s[3]
}

/// Lane `i` of the state decoded from a 32-byte digest: the `i`-th
/// little-endian 8-byte chunk, reduced mod the field modulus. Bytes 24
/// to 31 belong to no lane and are never read.
pub open spec fn lane_of(d: Seq<u8>, i: int) -> int
    recommends
        d.len() == 32,
        0 <= i < 3,
{
    le_u64_of(d.subrange(8 * i, 8 * i + 8)) % (FIELD_MODULUS as int)
}

/// The state decoded from a 32-byte digest.
pub open spec fn state_of(d: Seq<u8>) -> (int, int, int)
    recommends
        d.len() == 32,
{
    (lane_of(d, 0), lane_of(d, 1), lane_of(d, 2))
}

/// One round: the key is injected into lane 0 with a single conditional
/// subtraction, lane 0 passes through the S-box, and the fixed matrix
/// `[[1,1,1],[1,2,1],[1,1,3]]` mixes the pre-mixing snapshot of the
/// three lanes.
pub open spec fn round_spec(s: (int, int, int), key: int) -> (int, int, int) {
    let t0 = sbox_spec(sum_reduced_once(s.0, key));
    (
        addm(addm(t0, s.1), s.2),
        addm(addm(t0, mulm(s.1, 2)), s.2),
        addm(t0, addm(s.1, mulm(s.2, 3))),
    )
}

/// The three rounds of the permutation, with the fixed round keys.
pub open spec fn rounds3(s: (int, int, int)) -> (int, int, int) {
    round_spec(
        round_spec(round_spec(s, ROUND_KEY_0 as int), ROUND_KEY_1 as int),
        ROUND_KEY_2 as int,
    )
}

/// The 32-byte digest that packs a state: three little-endian 8-byte
/// lanes in bytes 0 to 23, zero in bytes 24 to 31.
pub open spec fn state_bytes(s: (int, int, int)) -> Seq<u8> {
    le_bytes_of(s.0) + le_bytes_of(s.1) + le_bytes_of(s.2) + seq![
        0u8,
        0u8,
        0u8,
        0u8,
        0u8,
        0u8,
        0u8,
        0u8,
    ]
}

/// The full permutation on a 32-byte digest: decode, three rounds,
/// re-encode.
pub open spec fn permute_spec(d: Seq<u8>) -> Seq<u8>
    recommends
        d.len() == 32,
{
    state_bytes(rounds3(state_of(d)))
}

/// The all-zero 32-byte digest the iteration starts from.
pub open spec fn zero_digest() -> Seq<u8> {
    Seq::new(32, |i: int| 0u8)
}

/// The digest after `n` sequential applications of the permutation to
/// the all-zero digest.
pub open spec fn chain_spec(n: nat) -> Seq<u8>
    decreases n,
{
    if n == 0 {
        zero_digest()
    } else {
        permute_spec(chain_spec((n - 1) as nat))
    }
}

/// Word `i` of the emitted output: the `i`-th big-endian 4-byte chunk
/// of the digest.
pub open spec fn word_of(d: Seq<u8>, i: int) -> int
    recommends
        d.len() == 32,
        0 <= i < 8,
{
    be_u32_of(d.subrange(4 * i, 4 * i + 4))
}

/// An 8-byte little-endian value is below `2^64`.
pub proof fn lemma_le_u64_bound(s: Seq<u8>)
    requires
        s.len() == 8,
    ensures
        0 <= le_u64_of(s) < 0x10000000000000000,
{
}

/// One round in place: key injection into lane 0, S-box on lane 0,
/// then the linear mixing layer over the pre-mixing snapshot.
pub fn poseidon_round(state: &mut [u64; 3], round_key: u64)
    requires
        old(state)@[0] < FIELD_MODULUS,
        old(state)@[1] < FIELD_MODULUS,
        old(state)@[2] < FIELD_MODULUS,
    ensures
        ({
            let r = round_spec(
                (old(state)@[0] as int, old(state)@[1] as int, old(state)@[2] as int),
                round_key as int,
            );
            final(state)@[0] == r.0 && final(state)@[1] == r.1 && final(state)@[2] == r.2
        }),
        final(state)@[0] < FIELD_MODULUS,
        final(state)@[1] < FIELD_MODULUS,
        final(state)@[2] < FIELD_MODULUS,
{
    let s0 = state[0];
    let s1 = state[1];
    let s2 = state[2];
    let t0 = sbox(field_add(s0, round_key));
    let n0 = field_add(field_add(t0, s1), s2);
    let n1 = field_add(field_add(t0, field_mul(s1, 2)), s2);
    let n2 = field_add(t0, field_add(s1, field_mul(s2, 3)));
    *state = [n0, n1, n2];
}

/// Lane `i` of the state held in a 32-byte digest: 8 bytes read
/// little-endian, reduced mod the field modulus.
fn lane_from_digest(input: &[u8; 32], i: usize) -> (v: u64)
    requires
        i < 3,
    ensures
        v == lane_of(input@, i as int),
        v < FIELD_MODULUS,
{
    let base = i * 8;
    let raw = input[base] as u64 + (input[base + 1] as u64) * 0x100 + (input[base + 2] as u64)
        * 0x10000 + (input[base + 3] as u64) * 0x1000000 + (input[base + 4] as u64) * 0x100000000
        + (input[base + 5] as u64) * 0x10000000000 + (input[base + 6] as u64) * 0x1000000000000 + (
    input[base + 7] as u64) * 0x100000000000000;
    proof {
        let s = input@.subrange(8 * i, 8 * i + 8);
        assert(raw == le_u64_of(s));
    }
    raw % FIELD_MODULUS
}

/// The little-endian 8-byte encoding of a lane.
fn lane_to_bytes(x: u64) -> (r: [u8; 8])
    ensures
        r@ == le_bytes_of(x as int),
{
    let r = [
        (x % 0x100) as u8,
        ((x / 0x100) % 0x100) as u8,
        ((x / 0x10000) % 0x100) as u8,
        ((x / 0x1000000) % 0x100) as u8,
        ((x / 0x100000000) % 0x100) as u8,
        ((x / 0x10000000000) % 0x100) as u8,
        ((x / 0x1000000000000) % 0x100) as u8,
        ((x / 0x100000000000000) % 0x100) as u8,
    ];
    proof {
        assert(r@ =~= le_bytes_of(x as int));
    }
    r
}

/// The 32-byte digest packing a 3-lane state: each lane little-endian
/// in its 8-byte chunk, bytes 24 to 31 left zero.
fn digest_from_state(state: &[u64; 3]) -> (out: [u8; 32])
    ensures
        out@ == state_bytes((state@[0] as int, state@[1] as int, state@[2] as int)),
{
    let a = lane_to_bytes(state[0]);
    let b = lane_to_bytes(state[1]);
    let c = lane_to_bytes(state[2]);
    let out: [u8; 32] = [
        a[0], a[1], a[2], a[3], a[4], a[5], a[6], a[7],
        b[0], b[1], b[2], b[3], b[4], b[5], b[6], b[7],
        c[0], c[1], c[2], c[3], c[4], c[5], c[6], c[7],
        0, 0, 0, 0, 0, 0, 0, 0,
    ];
    proof {
        assert(out@ =~= state_bytes((state@[0] as int, state@[1] as int, state@[2] as int)));
    }
    out
}

/// The full permutation: decode the digest into three lanes, apply the
/// three rounds with the fixed keys, and re-encode, leaving bytes 24 to
/// 31 of the output zero.
pub fn poseidon_hash(input: &[u8; 32]) -> (out: [u8; 32])
    ensures
        out@ == permute_spec(input@),
{
    let ghost st = state_of(input@);
    let mut state: [u64; 3] = [
        lane_from_digest(input, 0),
        lane_from_digest(input, 1),
        lane_from_digest(input, 2),
    ];
    assert(state@[0] == st.0 && state@[1] == st.1 && state@[2] == st.2);
    poseidon_round(&mut state, ROUND_KEY_0);
    let ghost st1 = round_spec(st, ROUND_KEY_0 as int);
    assert(state@[0] == st1.0 && state@[1] == st1.1 && state@[2] == st1.2);
    poseidon_round(&mut state, ROUND_KEY_1);
    let ghost st2 = round_spec(st1, ROUND_KEY_1 as int);
    assert(state@[0] == st2.0 && state@[1] == st2.1 && state@[2] == st2.2);
    poseidon_round(&mut state, ROUND_KEY_2);
    let ghost r = round_spec(st2, ROUND_KEY_2 as int);
    assert(state@[0] == r.0 && state@[1] == r.1 && state@[2] == r.2);
    let out = digest_from_state(&state);
    proof {
        assert(r == rounds3(st));
        assert(out@ == state_bytes(r));
    }
    out
}

/// `n` sequential applications of the permutation, starting from the
/// all-zero digest. With `n = 0` the output is the all-zero digest
/// itself. The result is a function of `n` alone, so two runs with the
/// same `n` produce byte-identical digests.
pub fn hash_chain(n: u64) -> (out: [u8; 32])
    ensures
        out@ == chain_spec(n as nat),
{
    let mut digest: [u8; 32] = [
        0, 0, 0, 0, 0, 0, 0, 0,
        0, 0, 0, 0, 0, 0, 0, 0,
        0, 0, 0, 0, 0, 0, 0, 0,
        0, 0, 0, 0, 0, 0, 0, 0,
    ];
    proof {
        assert(digest@ =~= zero_digest());
    }
    for i in 0..n
        invariant
            digest@ == chain_spec(i as nat),
    {
        digest = poseidon_hash(&digest);
    }
    digest
}

/// Word `i` of the digest, read big-endian from its `i`-th 4-byte chunk.
fn be_word(digest: &[u8; 32], i: usize) -> (v: u32)
    requires
        i < 8,
    ensures
        v == word_of(digest@, i as int),
{
    let base = i * 4;
    let v = (digest[base] as u32) * 0x1000000 + (digest[base + 1] as u32) * 0x10000 + (digest[base
        + 2] as u32) * 0x100 + (digest[base + 3] as u32);
    proof {
        let s = digest@.subrange(4 * i, 4 * i + 4);
        assert(v == be_u32_of(s));
    }
    v
}

/// The eight 32-bit output words of a digest: word `i` is the `i`-th
/// 4-byte chunk read big-endian. This re-chunking is independent of the
/// little-endian 8-byte packing used between rounds, and both are kept
/// bit-exact.
pub fn digest_words(digest: &[u8; 32]) -> (w: [u32; 8])
    ensures
        forall|i: int| 0 <= i < 8 ==> w@[i] == word_of(digest@, i),
{
    let w: [u32; 8] = [
        be_word(digest, 0),
        be_word(digest, 1),
        be_word(digest, 2),
        be_word(digest, 3),
        be_word(digest, 4),
        be_word(digest, 5),
        be_word(digest, 6),
        be_word(digest, 7),
    ];
    w
}

/// The iteration count decoded from the raw input buffer: exactly 8
/// bytes read as a little-endian `u64`. Any other length is rejected
/// with `None`; the caller treats that as a fatal input-format error.
pub fn parse_iterations(input: &[u8]) -> (r: Option<u64>)
    ensures
        r is Some <==> input@.len() == 8,
        input@.len() == 8 ==> r == Some(le_u64_of(input@) as u64),
{
    if input.len() == 8 {
        let v = input[0] as u64 + (input[1] as u64) * 0x100 + (input[2] as u64) * 0x10000 + (
        input[3] as u64) * 0x1000000 + (input[4] as u64) * 0x100000000 + (input[5] as u64)
            * 0x10000000000 + (input[6] as u64) * 0x1000000000000 + (input[7] as u64)
            * 0x100000000000000;
        proof {
            lemma_le_u64_bound(input@);
        }
        Some(v)
    } else {
        None
    }
}

/// The pipeline is deterministic: two runs with the same iteration
/// count yield one digest, and so one sequence of emitted words.
pub proof fn lemma_chain_deterministic(n: nat, d1: Seq<u8>, d2: Seq<u8>)
    requires
        d1 == chain_spec(n),
        d2 == chain_spec(n),
    ensures
        d1 == d2,
        forall|i: int| 0 <= i < 8 ==> word_of(d1, i) == word_of(d2, i),
{
}

/// With `n = 0` the chain yields the all-zero digest, and all eight
/// emitted words are zero.
pub proof fn lemma_zero_iterations()
    ensures
        chain_spec(0) == zero_digest(),
        forall|i: int| 0 <= i < 8 ==> word_of(zero_digest(), i) == 0,
{
    assert forall|i: int| 0 <= i < 8 implies word_of(zero_digest(), i) == 0 by {
        let s = zero_digest().subrange(4 * i, 4 * i + 4);
        assert(s[0] == 0 && s[1] == 0 && s[2] == 0 && s[3] == 0);
    }
}

} // verus!
