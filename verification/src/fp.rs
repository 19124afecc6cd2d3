//! Arithmetic modulo the field prime `2^255 - 19`, on integers that need not be reduced.
//!
//! Equations of the field are written as integers that vanish: `vanishes(a - b)` says that
//! `a` and `b` are the same field element.
use vstd::arithmetic::mul::*;
use vstd::arithmetic::power::*;
use vstd::prelude::*;

use crate::modular;
use crate::prime25519;
use crate::primes;

verus! {

/// The field prime, `2^255 - 19`.
pub open spec fn p() -> int {
    57896044618658097711785492504343953926634992332820282019728792003956564819949int
}

/// The integer is a multiple of the field prime.
#[verifier::opaque]
pub open spec fn vanishes(a: int) -> bool {
    a % p() == 0
}

/// The inverse of a field element, and zero for zero.
#[verifier::opaque]
pub open spec fn inverse(a: int) -> int {
    pow(a, (p() - 2) as nat) % p()
}

/// A difference vanishes exactly when both sides leave the same remainder.
pub proof fn lemma_vanishes_difference(a: int, b: int)
    ensures
        vanishes(a - b) <==> a % p() == b % p(),
{
    reveal(vanishes);
    modular::lemma_cong_difference(a, b, p());
}

/// An integer and its remainder are the same field element.
pub proof fn lemma_remainder(a: int)
    ensures
        vanishes(a - a % p()),
        vanishes(a % p() - a),
        0 <= a % p() < p(),
{
    modular::lemma_cong_reduce(a, p());
    lemma_vanishes_difference(a, a % p());
    lemma_vanishes_difference(a % p(), a);
}

/// Two reduced integers that are the same field element are equal.
pub proof fn lemma_reduced_unique(a: int, b: int)
    requires
        0 <= a < p(),
        0 <= b < p(),
        vanishes(a - b),
    ensures
        a == b,
{
    lemma_vanishes_difference(a, b);
    modular::lemma_small(a, p());
    modular::lemma_small(b, p());
}

/// Small positive integers do not vanish.
pub proof fn lemma_small_nonzero(a: int)
    requires
        0 < a < p(),
    ensures
        !vanishes(a),
{
    reveal(vanishes);
    modular::lemma_small(a, p());
}

/// Zero vanishes.
pub proof fn lemma_vanishes_zero()
    ensures
        vanishes(0),
{
    reveal(vanishes);
    modular::lemma_small(0, p());
}

/// Sums and differences of vanishing integers vanish.
pub proof fn lemma_vanishes_add(a: int, b: int)
    requires
        vanishes(a),
        vanishes(b),
    ensures
        vanishes(a + b),
        vanishes(a - b),
{
    reveal(vanishes);
    modular::lemma_small(0, p());
    modular::lemma_cong_add(a, 0, b, 0, p());
    modular::lemma_cong_sub(a, 0, b, 0, p());
}

/// A vanishing integer may be negated.
pub proof fn lemma_vanishes_negate(a: int)
    requires
        vanishes(a),
    ensures
        vanishes(-a),
{
    lemma_vanishes_zero();
    lemma_vanishes_add(0, a);
}

/// Multiples of a vanishing integer vanish.
pub proof fn lemma_vanishes_mul(c: int, a: int)
    requires
        vanishes(a),
    ensures
        vanishes(c * a),
        vanishes(a * c),
{
    reveal(vanishes);
    modular::lemma_small(0, p());
    modular::lemma_cong_scale(a, 0, c, p());
    lemma_mul_basics(c);
}

/// Combinations of two vanishing integers vanish.
pub proof fn lemma_vanishes_sum2(c: int, a: int, d: int, b: int)
    requires
        vanishes(a),
        vanishes(b),
    ensures
        vanishes(c * a + d * b),
{
    lemma_vanishes_mul(c, a);
    lemma_vanishes_mul(d, b);
    lemma_vanishes_add(c * a, d * b);
}

/// Combinations of three vanishing integers vanish.
pub proof fn lemma_vanishes_sum3(c: int, a: int, d: int, b: int, f: int, e: int)
    requires
        vanishes(a),
        vanishes(b),
        vanishes(e),
    ensures
        vanishes(c * a + d * b + f * e),
{
    lemma_vanishes_sum2(c, a, d, b);
    lemma_vanishes_mul(f, e);
    lemma_vanishes_add(c * a + d * b, f * e);
}

/// Combinations of four vanishing integers vanish.
pub proof fn lemma_vanishes_sum4(c: int, a: int, d: int, b: int, f: int, e: int, h: int, g: int)
    requires
        vanishes(a),
        vanishes(b),
        vanishes(e),
        vanishes(g),
    ensures
        vanishes(c * a + d * b + f * e + h * g),
{
    lemma_vanishes_sum3(c, a, d, b, f, e);
    lemma_vanishes_mul(h, g);
    lemma_vanishes_add(c * a + d * b + f * e, h * g);
}

/// A product vanishes only if one of its factors does.
pub proof fn lemma_vanishes_euclid(a: int, b: int)
    requires
        vanishes(a * b),
    ensures
        vanishes(a) || vanishes(b),
{
    reveal(vanishes);
    prime25519::lemma_p_prime();
    primes::lemma_euclid(a, b, p());
}

/// Field elements that differ by a vanishing integer vanish together.
pub proof fn lemma_vanishes_same(a: int, b: int)
    requires
        vanishes(a - b),
    ensures
        vanishes(a) <==> vanishes(b),
{
    lemma_vanishes_difference(a, b);
    reveal(vanishes);
}

/// The law that gives [`inverse`] its name: `a * inverse(a)` is one unless `a` is zero.
pub proof fn lemma_inverse(a: int)
    requires
        !vanishes(a),
    ensures
        vanishes(a * inverse(a) - 1),
        !vanishes(inverse(a)),
{
    reveal(vanishes);
    reveal(inverse);
    prime25519::lemma_p_prime();
    primes::lemma_fermat(a, p());
    let e: nat = (p() - 2) as nat;
    lemma_pow_adds(a, 1, e);
    lemma_pow1(a);
    modular::lemma_cong_inner(a, pow(a, e), p());
    modular::lemma_small(1, p());
    modular::lemma_cong_difference(a * inverse(a), 1, p());
    if vanishes(inverse(a)) {
        lemma_vanishes_mul(a, inverse(a));
        lemma_vanishes_add(a * inverse(a), a * inverse(a) - 1);
        lemma_small_nonzero(1);
    }
}

/// The inverse of zero is zero.
pub proof fn lemma_inverse_zero(a: int)
    requires
        vanishes(a),
    ensures
        inverse(a) == 0,
{
    reveal(vanishes);
    reveal(inverse);
    let e: nat = (p() - 3) as nat;
    reveal(pow);
    assert(pow(a, (p() - 2) as nat) == a * pow(a, e));
    lemma_vanishes_mul(pow(a, e), a);
}

/// Inverses of equal field elements are equal.
pub proof fn lemma_inverse_same(a: int, b: int)
    requires
        vanishes(a - b),
    ensures
        inverse(a) == inverse(b),
{
    lemma_vanishes_difference(a, b);
    reveal(inverse);
    modular::lemma_cong_pow(a, b, (p() - 2) as nat, p());
}

/// Multiples of the prime vanish.
pub proof fn lemma_prime_vanishes(k: int)
    ensures
        vanishes(k * p()),
{
    reveal(vanishes);
    modular::lemma_cong_shift(0, k, p());
}

/// Products of equal field elements are equal.
pub proof fn lemma_product_same(a: int, b: int, c: int, e: int)
    requires
        vanishes(a - b),
        vanishes(c - e),
    ensures
        vanishes(a * c - b * e),
{
    lemma_vanishes_difference(a, b);
    lemma_vanishes_difference(c, e);
    modular::lemma_cong_mul(a, b, c, e, p());
    lemma_vanishes_difference(a * c, b * e);
}

/// What multiplies with `a` to one is its inverse.
pub proof fn lemma_inverse_unique(a: int, v: int)
    requires
        vanishes(a * v - 1),
    ensures
        v % p() == inverse(a),
        !vanishes(a),
{
    if vanishes(a) {
        lemma_vanishes_mul(v, a);
        lemma_vanishes_add(a * v, a * v - 1);
        lemma_small_nonzero(1);
    }
    lemma_inverse(a);
    lemma_vanishes_add(a * v - 1, a * inverse(a) - 1);
    lemma_mul_is_distributive_sub(a, v, inverse(a));
    lemma_vanishes_euclid(a, v - inverse(a));
    lemma_vanishes_difference(v, inverse(a));
    lemma_inverse_range(a);
    modular::lemma_small(inverse(a), p());
}

/// Inverses are reduced.
pub proof fn lemma_inverse_range(a: int)
    ensures
        0 <= inverse(a) < p(),
{
    reveal(inverse);
    modular::lemma_cong_reduce(pow(a, (p() - 2) as nat), p());
}

} // verus!
