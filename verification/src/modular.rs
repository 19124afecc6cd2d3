//! Congruence of integers modulo `m`: two integers are congruent when they leave
//! the same remainder.
use vstd::arithmetic::div_mod::*;
use vstd::arithmetic::mul::*;
use vstd::arithmetic::power::*;
use vstd::prelude::*;

verus! {

/// Sums of congruent integers are congruent.
pub proof fn lemma_cong_add(a: int, b: int, c: int, d: int, m: int)
    requires
        m > 0,
        a % m == b % m,
        c % m == d % m,
    ensures
        (a + c) % m == (b + d) % m,
{
    lemma_add_mod_noop(a, c, m);
    lemma_add_mod_noop(b, d, m);
}

/// Differences of congruent integers are congruent.
pub proof fn lemma_cong_sub(a: int, b: int, c: int, d: int, m: int)
    requires
        m > 0,
        a % m == b % m,
        c % m == d % m,
    ensures
        (a - c) % m == (b - d) % m,
{
    lemma_sub_mod_noop(a, c, m);
    lemma_sub_mod_noop(b, d, m);
}

/// Products of congruent integers are congruent.
pub proof fn lemma_cong_mul(a: int, b: int, c: int, d: int, m: int)
    requires
        m > 0,
        a % m == b % m,
        c % m == d % m,
    ensures
        (a * c) % m == (b * d) % m,
{
    lemma_mul_mod_noop(a, c, m);
    lemma_mul_mod_noop(b, d, m);
}

/// A congruence may be multiplied by any integer.
pub proof fn lemma_cong_scale(a: int, b: int, c: int, m: int)
    requires
        m > 0,
        a % m == b % m,
    ensures
        (a * c) % m == (b * c) % m,
        (c * a) % m == (c * b) % m,
{
    lemma_cong_mul(a, b, c, c, m);
    lemma_mul_is_commutative(a, c);
    lemma_mul_is_commutative(b, c);
}

/// Adding a multiple of the modulus changes no remainder.
pub proof fn lemma_cong_shift(a: int, k: int, m: int)
    requires
        m > 0,
    ensures
        (a + k * m) % m == a % m,
        (a + m * k) % m == a % m,
        (a - m * k) % m == a % m,
        (m * k) % m == 0,
        (k * m) % m == 0,
{
    lemma_mul_is_commutative(k, m);
    lemma_mod_multiples_vanish(k, a, m);
    lemma_mod_multiples_vanish(-k, a, m);
    lemma_mul_unary_negation(m, k);
    lemma_mod_multiples_basic(k, m);
}

/// Congruence is divisibility of the difference.
pub proof fn lemma_cong_difference(a: int, b: int, m: int)
    requires
        m > 0,
    ensures
        a % m == b % m <==> (a - b) % m == 0,
{
    lemma_mod_equivalence(a, b, m);
}

/// An integer is congruent to its remainder.
pub proof fn lemma_cong_reduce(a: int, m: int)
    requires
        m > 0,
    ensures
        (a % m) % m == a % m,
        0 <= a % m < m,
{
    lemma_mod_twice(a, m);
    lemma_mod_bound(a, m);
}

/// The remainder of the sum, difference and product may be taken over remainders.
pub proof fn lemma_cong_inner(a: int, b: int, m: int)
    requires
        m > 0,
    ensures
        ((a % m) * b) % m == (a * b) % m,
        (a * (b % m)) % m == (a * b) % m,
        ((a % m) * (b % m)) % m == (a * b) % m,
        ((a % m) + (b % m)) % m == (a + b) % m,
        ((a % m) - (b % m)) % m == (a - b) % m,
{
    lemma_mul_mod_noop_left(a, b, m);
    lemma_mul_mod_noop_right(a, b, m);
    lemma_mul_mod_noop(a, b, m);
    lemma_add_mod_noop(a, b, m);
    lemma_sub_mod_noop(a, b, m);
}

/// A remainder that is already in range is the number itself.
pub proof fn lemma_small(a: int, m: int)
    requires
        0 <= a < m,
    ensures
        a % m == a,
{
    lemma_small_mod(a as nat, m as nat);
}

/// A multiple of `m` is `m` times its quotient.
pub proof fn lemma_multiple(a: int, m: int)
    requires
        m > 0,
        a % m == 0,
    ensures
        a == m * (a / m),
{
    lemma_fundamental_div_mod(a, m);
}

/// A congruence modulo `m` holds modulo every divisor of `m`.
pub proof fn lemma_cong_divisor(a: int, b: int, m: int, s: int)
    requires
        m > 0,
        s > 0,
        m % s == 0,
        a % m == b % m,
    ensures
        a % s == b % s,
{
    lemma_cong_difference(a, b, m);
    lemma_multiple(a - b, m);
    lemma_multiple(m, s);
    let k: int = (a - b) / m;
    let c: int = m / s;
    assert(a - b == s * (c * k)) by {
        lemma_mul_is_associative(s, c, k);
    }
    lemma_cong_shift(0, c * k, s);
    lemma_cong_difference(a, b, s);
}

/// Powers of congruent integers are congruent.
pub proof fn lemma_cong_pow(a: int, b: int, e: nat, m: int)
    requires
        m > 0,
        a % m == b % m,
    ensures
        pow(a, e) % m == pow(b, e) % m,
{
    lemma_pow_mod_noop(a, e, m);
    lemma_pow_mod_noop(b, e, m);
}

} // verus!
