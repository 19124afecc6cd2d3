//! Powers modulo `n`, built up one exponent bit at a time.
use vstd::arithmetic::mul::*;
use vstd::arithmetic::power::*;
use vstd::prelude::*;

use crate::modular;

verus! {

/// Doubles the exponent, and adds one to it if `b` holds.
pub proof fn lemma_walk_one(x: int, n: int, e: nat, y: int, b: bool, z: int)
    requires
        n > 0,
        pow(x, e) % n == y,
        (y * y * (if b { x } else { 1 })) % n == z,
    ensures
        pow(x, 2 * e + (if b { 1nat } else { 0nat })) % n == z,
{
    let v: int = pow(x, e);
    modular::lemma_cong_reduce(v, n);
    modular::lemma_cong_mul(v, y, v, y, n);
    lemma_pow_adds(x, e, e);
    if b {
        modular::lemma_cong_mul(v * v, y * y, x, x, n);
        lemma_pow_adds(x, 2 * e, 1);
        lemma_pow1(x);
    } else {
        lemma_mul_basics(y * y);
    }
}

/// Eight steps of [`lemma_walk_one`]: `b` holds the next eight exponent bits.
pub proof fn lemma_walk_eight(
    x: int,
    n: int,
    e: nat,
    y: int,
    b: (bool, bool, bool, bool, bool, bool, bool, bool),
    z1: int,
    z2: int,
    z3: int,
    z4: int,
    z5: int,
    z6: int,
    z7: int,
    z8: int,
)
    requires
        n > 0,
        pow(x, e) % n == y,
        (y * y * (if b.0 { x } else { 1 })) % n == z1,
        (z1 * z1 * (if b.1 { x } else { 1 })) % n == z2,
        (z2 * z2 * (if b.2 { x } else { 1 })) % n == z3,
        (z3 * z3 * (if b.3 { x } else { 1 })) % n == z4,
        (z4 * z4 * (if b.4 { x } else { 1 })) % n == z5,
        (z5 * z5 * (if b.5 { x } else { 1 })) % n == z6,
        (z6 * z6 * (if b.6 { x } else { 1 })) % n == z7,
        (z7 * z7 * (if b.7 { x } else { 1 })) % n == z8,
    ensures
        pow(x, 256 * e + eight_bits(b)) % n == z8,
{
    lemma_walk_one(x, n, e, y, b.0, z1);
    let e1: nat = 2 * e + (if b.0 { 1nat } else { 0nat });
    lemma_walk_one(x, n, e1, z1, b.1, z2);
    let e2: nat = 2 * e1 + (if b.1 { 1nat } else { 0nat });
    lemma_walk_one(x, n, e2, z2, b.2, z3);
    let e3: nat = 2 * e2 + (if b.2 { 1nat } else { 0nat });
    lemma_walk_one(x, n, e3, z3, b.3, z4);
    let e4: nat = 2 * e3 + (if b.3 { 1nat } else { 0nat });
    lemma_walk_one(x, n, e4, z4, b.4, z5);
    let e5: nat = 2 * e4 + (if b.4 { 1nat } else { 0nat });
    lemma_walk_one(x, n, e5, z5, b.5, z6);
    let e6: nat = 2 * e5 + (if b.5 { 1nat } else { 0nat });
    lemma_walk_one(x, n, e6, z6, b.6, z7);
    let e7: nat = 2 * e6 + (if b.6 { 1nat } else { 0nat });
    lemma_walk_one(x, n, e7, z7, b.7, z8);
    let e8: nat = 2 * e7 + (if b.7 { 1nat } else { 0nat });
}

/// The number that eight bits spell, the most significant first.
pub open spec fn eight_bits(b: (bool, bool, bool, bool, bool, bool, bool, bool)) -> nat {
    (if b.0 { 128nat } else { 0nat })
        + (if b.1 { 64nat } else { 0nat })
        + (if b.2 { 32nat } else { 0nat })
        + (if b.3 { 16nat } else { 0nat })
        + (if b.4 { 8nat } else { 0nat })
        + (if b.5 { 4nat } else { 0nat })
        + (if b.6 { 2nat } else { 0nat })
        + (if b.7 { 1nat } else { 0nat })
}

/// The power with exponent `m * q`, from the `m`-th power and the `q`-th power of that.
pub proof fn lemma_compose(a: int, n: int, m: nat, q: nat, x: int, r: int)
    requires
        n > 0,
        pow(a, m) % n == x,
        pow(x, q) % n == r,
    ensures
        pow(a, (m * q) as nat) % n == r,
{
    lemma_mul_nonnegative(m as int, q as int);
    lemma_pow_multiplies(a, m, q);
    modular::lemma_cong_reduce(pow(a, m), n);
    modular::lemma_cong_pow(pow(a, m), x, q, n);
}

/// `w` is an inverse of the `m`-th power less one when it is one of that power's residue
/// less one.
pub proof fn lemma_less_one(a: int, n: int, m: nat, x: int, w: int)
    requires
        n > 0,
        pow(a, m) % n == x,
        ((x - 1) * w) % n == 1,
    ensures
        ((pow(a, m) - 1) * w) % n == 1,
{
    modular::lemma_cong_reduce(pow(a, m), n);
    modular::lemma_cong_sub(pow(a, m), x, 1, 1, n);
    modular::lemma_cong_mul(pow(a, m) - 1, x - 1, w, w, n);
}

/// Powers of a square are powers of the root with twice the exponent.
pub proof fn lemma_square_base(s: int, h: nat)
    ensures
        pow(s * s, h) == pow(s, 2 * h),
{
    lemma_pow_distributes(s, s, h);
    lemma_pow_adds(s, h, h);
}

} // verus!
