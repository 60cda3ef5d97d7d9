//! Arithmetic over the field of integers modulo `2^63 - 1`.
//!
//! A field element is a `u64` strictly below [`FIELD_MODULUS`]. Every
//! operation here returns a fully reduced element, except that
//! [`field_add`] accepts an arbitrary `u64` as its second operand and
//! then subtracts the modulus at most once (see its contract).

use vstd::prelude::*;
use vstd::arithmetic::div_mod::{
    lemma_mod_division_less_than_divisor, lemma_mod_sub_multiples_vanish, lemma_small_mod,
};
use vstd::arithmetic::mul::lemma_mul_upper_bound;

verus! {

/// The modulus `2^63 - 1`.
pub const FIELD_MODULUS: u64 = 0x7fffffffffffffff;

/// Modular addition of two reduced elements.
pub open spec fn addm(a: int, b: int) -> int {
    (a + b) % (FIELD_MODULUS as int)
}

/// Modular multiplication.
pub open spec fn mulm(a: int, b: int) -> int {
    (a * b) % (FIELD_MODULUS as int)
}

/// The sum with the modulus subtracted at most once. Equal to
/// `addm(a, b)` whenever both operands are reduced; for `b` at or above
/// the modulus (a raw round key) the result may remain unreduced.
pub open spec fn sum_reduced_once(a: int, b: int) -> int {
    if a + b < FIELD_MODULUS {
        a + b
    } else {
        a + b - FIELD_MODULUS
    }
}

/// The S-box `x -> x^5 mod (2^63 - 1)`.
pub open spec fn sbox_spec(x: int) -> int {
    (x * x * x * x * x) % (FIELD_MODULUS as int)
}

/// Field addition: one conditional subtraction of the modulus.
///
/// The first operand must be reduced; the second may be any `u64`, in
/// which case the result is exactly `sum_reduced_once` of the two.
/// When both operands are reduced this computes modular addition and
/// the result is reduced again.
pub fn field_add(a: u64, b: u64) -> (r: u64)
    requires
        a < FIELD_MODULUS,
    ensures
        r == sum_reduced_once(a as int, b as int),
        b < FIELD_MODULUS ==> r == addm(a as int, b as int) && r < FIELD_MODULUS,
{
    let sum: u128 = a as u128 + b as u128;
    proof {
        if b < FIELD_MODULUS {
            let m = FIELD_MODULUS as int;
            if a + b < m {
                lemma_small_mod((a + b) as nat, FIELD_MODULUS as nat);
            } else {
                lemma_mod_sub_multiples_vanish(a + b, m);
                lemma_small_mod((a + b - m) as nat, FIELD_MODULUS as nat);
            }
        }
    }
    if sum >= FIELD_MODULUS as u128 {
        (sum - FIELD_MODULUS as u128) as u64
    } else {
        sum as u64
    }
}

/// Field multiplication: the double-width product reduced mod the modulus.
pub fn field_mul(a: u64, b: u64) -> (r: u64)
    ensures
        r == mulm(a as int, b as int),
        r < FIELD_MODULUS,
{
    proof {
        lemma_mul_upper_bound(a as int, u64::MAX as int, b as int, u64::MAX as int);
        lemma_mod_division_less_than_divisor((a as int) * (b as int), FIELD_MODULUS as int);
    }
    let product: u128 = (a as u128) * (b as u128);
    (product % (FIELD_MODULUS as u128)) as u64
}

/// The S-box `x^5 mod (2^63 - 1)`, computed as `((x^2)^2) * x` with
/// reduced intermediates. Its result is a function of `x` alone, so two
/// calls on the same argument return the same value.
pub fn sbox(x: u64) -> (r: u64)
    ensures
        r == sbox_spec(x as int),
        r < FIELD_MODULUS,
{
    let x2 = field_mul(x, x);
    let x4 = field_mul(x2, x2);
    let r = field_mul(x4, x);
    proof {
        let xi = x as int;
        let m = FIELD_MODULUS as int;
        vstd::arithmetic::div_mod::lemma_mul_mod_noop_general(xi * xi, xi * xi, m);
        assert(x4 == ((xi * xi) * (xi * xi)) % m);
        vstd::arithmetic::div_mod::lemma_mul_mod_noop_general((xi * xi) * (xi * xi), xi, m);
        assert(r == ((xi * xi) * (xi * xi) * xi) % m);
        assert((xi * xi) * (xi * xi) * xi == xi * xi * xi * xi * xi) by (nonlinear_arith);
    }
    r
}

/// Both field operations keep reduced operands reduced: for `a, b`
/// below the modulus, `addm(a, b)` and `mulm(a, b)` are below it too.
pub proof fn lemma_field_ops_closed(a: int, b: int)
    requires
        0 <= a < FIELD_MODULUS,
        0 <= b < FIELD_MODULUS,
    ensures
        0 <= addm(a, b) < FIELD_MODULUS,
        0 <= mulm(a, b) < FIELD_MODULUS,
{
    lemma_mod_division_less_than_divisor(a + b, FIELD_MODULUS as int);
    lemma_mod_division_less_than_divisor(a * b, FIELD_MODULUS as int);
}

/// Zero is the additive identity: `addm(a, 0) == a` for every reduced `a`.
pub proof fn lemma_add_zero_identity(a: int)
    requires
        0 <= a < FIELD_MODULUS,
    ensures
        addm(a, 0) == a,
{
    lemma_small_mod(a as nat, FIELD_MODULUS as nat);
}

/// The S-box fixes zero: `sbox_spec(0) == 0`.
pub proof fn lemma_sbox_zero()
    ensures
        sbox_spec(0) == 0,
{
    assert(sbox_spec(0) == 0int % (FIELD_MODULUS as int));
    lemma_small_mod(0nat, FIELD_MODULUS as nat);
}

} // verus!
