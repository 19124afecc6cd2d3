//! Prime numbers: greatest common divisors, inverses, Fermat's little theorem and
//! a primality criterion that needs one prime factor of `n - 1`.
use vstd::arithmetic::div_mod::*;
use vstd::arithmetic::mul::*;
use vstd::arithmetic::power::*;
use vstd::prelude::*;

use crate::modular;
use crate::ring;

verus! {

/// `n` has no divisor but one and itself.
pub open spec fn is_prime(n: int) -> bool {
    &&& n > 1
    &&& forall|d: int| 1 < d < n ==> #[trigger] (n % d) != 0
}

/// Bezout: returns `(x, y, g)` with `a * x + b * y == g`, where `g` is positive and
/// divides both numbers.
pub proof fn lemma_bezout(a: int, b: int) -> (r: (int, int, int))
    requires
        a > 0,
        b >= 0,
    ensures
        a * r.0 + b * r.1 == r.2,
        r.2 > 0,
        a % r.2 == 0,
        b % r.2 == 0,
    decreases b,
{
    if b == 0 {
        lemma_mul_basics(a);
        lemma_mod_self_0(a);
        modular::lemma_small(0, a);
        (1, 0, a)
    } else {
        let q: int = a / b;
        let t: int = a % b;
        lemma_fundamental_div_mod(a, b);
        lemma_mod_bound(a, b);
        let s = lemma_bezout(b, t);
        let x: int = s.0;
        let y: int = s.1;
        let g: int = s.2;
        // b * x + (a - b * q) * y == g
        assert(a * y + b * (x - q * y) == g) by {
            ring::lemma_bezout_step(a, b, q, x, y);
        }
        assert(a % g == 0) by {
            modular::lemma_multiple(b, g);
            modular::lemma_multiple(t, g);
            let bq: int = b / g;
            let tq: int = t / g;
            assert(a == g * (bq * q + tq)) by {
                lemma_mul_is_associative(g, bq, q);
                lemma_mul_is_distributive_add(g, bq * q, tq);
            }
            modular::lemma_cong_shift(0, bq * q + tq, g);
        }
        (y, x - q * y, g)
    }
}

/// A positive divisor of a prime is one or the prime.
pub proof fn lemma_prime_divisor_trivial(n: int, g: int)
    requires
        is_prime(n),
        g > 0,
        n % g == 0,
    ensures
        g == 1 || g == n,
{
    modular::lemma_multiple(n, g);
    if g > n {
        modular::lemma_small(n, g);
    }
    if 1 < g < n {
        assert(n % g != 0);
    }
}

/// What a prime does not divide has an inverse modulo it.
pub proof fn lemma_prime_inverse(a: int, n: int) -> (x: int)
    requires
        is_prime(n),
        a % n != 0,
    ensures
        (a * x) % n == 1,
{
    let c: int = a % n;
    modular::lemma_cong_reduce(a, n);
    let r = lemma_bezout(n, c);
    let g: int = r.2;
    lemma_prime_divisor_trivial(n, g);
    if g == n {
        modular::lemma_small(c, n);
        assert(false);
    }
    let x: int = r.1;
    // n * r.0 + c * x == 1
    modular::lemma_cong_shift(c * x, r.0, n);
    modular::lemma_small(1, n);
    modular::lemma_cong_mul(a, c, x, x, n);
    x
}

/// Euclid's lemma.
pub proof fn lemma_euclid(a: int, b: int, n: int)
    requires
        is_prime(n),
        (a * b) % n == 0,
    ensures
        a % n == 0 || b % n == 0,
{
    if a % n != 0 {
        let x = lemma_prime_inverse(a, n);
        modular::lemma_small(1, n);
        modular::lemma_small(0, n);
        // b == 1 * b, congruent to (a * x) * b == (a * b) * x, congruent to 0
        modular::lemma_cong_mul(a * x, 1, b, b, n);
        assert((a * x) * b == (a * b) * x) by {
            lemma_mul_is_associative(a, x, b);
            lemma_mul_is_commutative(x, b);
            lemma_mul_is_associative(a, b, x);
        }
        modular::lemma_cong_mul(a * b, 0, x, x, n);
    }
}

/// A factor that the prime does not divide may be cancelled from a congruence.
pub proof fn lemma_cancel(c: int, a: int, b: int, n: int)
    requires
        is_prime(n),
        c % n != 0,
        (c * a) % n == (c * b) % n,
    ensures
        a % n == b % n,
{
    modular::lemma_cong_difference(c * a, c * b, n);
    lemma_mul_is_distributive_sub(c, a, b);
    lemma_euclid(c, a - b, n);
    modular::lemma_cong_difference(a, b, n);
}

/// Every integer above one has a prime divisor.
pub proof fn lemma_prime_divisor(n: int) -> (s: int)
    requires
        n > 1,
    ensures
        is_prime(s),
        s <= n,
        n % s == 0,
{
    lemma_prime_divisor_from(n, 2)
}

proof fn lemma_prime_divisor_from(n: int, d: int) -> (s: int)
    requires
        1 < d <= n,
        forall|e: int| 1 < e < d ==> #[trigger] (n % e) != 0,
    ensures
        is_prime(s),
        s <= n,
        n % s == 0,
    decreases n - d,
{
    if n % d == 0 {
        assert forall|e: int| 1 < e < d implies #[trigger] (d % e) != 0 by {
            if d % e == 0 {
                modular::lemma_small(0, e);
                modular::lemma_small(0, d);
                modular::lemma_cong_divisor(n, 0, d, e);
                assert(n % e == 0);
            }
        }
        d
    } else {
        if d == n {
            lemma_mod_self_0(n);
        }
        lemma_prime_divisor_from(n, d + 1)
    }
}

/// Binomial coefficients.
pub open spec fn binomial(n: nat, k: nat) -> int
    decreases n,
{
    if k == 0 {
        1
    } else if n == 0 {
        0
    } else {
        binomial((n - 1) as nat, (k - 1) as nat) + binomial((n - 1) as nat, k)
    }
}

proof fn lemma_binomial_above(n: nat, k: nat)
    requires
        k > n,
    ensures
        binomial(n, k) == 0,
    decreases n,
{
    if n > 0 {
        lemma_binomial_above((n - 1) as nat, (k - 1) as nat);
        lemma_binomial_above((n - 1) as nat, k);
    }
}

proof fn lemma_binomial_absorb(n: nat, k: nat)
    requires
        n >= 1,
        k >= 1,
    ensures
        k * binomial(n, k) == n * binomial((n - 1) as nat, (k - 1) as nat),
    decreases n,
{
    let a: int = binomial((n - 1) as nat, (k - 1) as nat);
    let b: int = binomial((n - 1) as nat, k);
    assert(binomial(n, k) == a + b);
    if n == 1 {
        lemma_binomial_above(0, k);
        if k > 1 {
            lemma_binomial_above(0, (k - 1) as nat);
        }
        lemma_mul_basics(k as int);
        lemma_mul_basics(a);
    } else {
        let c: int = binomial((n - 2) as nat, (k - 1) as nat);
        lemma_binomial_absorb((n - 1) as nat, k);
        assert(k * b == (n - 1) * c);
        if k == 1 {
            assert(a == 1 && c == 1);
            lemma_mul_basics(a + b);
            lemma_mul_basics(b);
            lemma_mul_basics(n as int);
            lemma_mul_basics(n - 1);
        } else {
            let e: int = binomial((n - 2) as nat, (k - 2) as nat);
            lemma_binomial_absorb((n - 1) as nat, (k - 1) as nat);
            assert((k - 1) * a == (n - 1) * e);
            assert(a == e + c);
            assert(k * (a + b) == n * a) by {
                lemma_mul_is_distributive_add(k as int, a, b);
                lemma_mul_is_distributive_sub_other_way(a, k as int, 1);
                lemma_mul_is_distributive_sub_other_way(a, n as int, 1);
                lemma_mul_is_distributive_add(n - 1, e, c);
                lemma_mul_basics(a);
            }
        }
    }
}

/// The first `m` terms of the binomial expansion of `(a + 1)` to the power `n`.
pub open spec fn binomial_sum(a: int, n: nat, m: nat) -> int
    decreases m,
{
    if m == 0 {
        0
    } else {
        binomial_sum(a, n, (m - 1) as nat) + binomial(n, (m - 1) as nat) * pow(a, (m - 1) as nat)
    }
}

proof fn lemma_binomial_sum_step(a: int, n: nat, m: nat)
    ensures
        binomial_sum(a, n + 1, m + 1) == binomial_sum(a, n, m + 1) + a * binomial_sum(a, n, m),
    decreases m,
{
    reveal_with_fuel(binomial_sum, 2);
    lemma_pow0(a);
    if m == 0 {
        lemma_mul_basics(a);
    } else {
        lemma_binomial_sum_step(a, n, (m - 1) as nat);
        let k: nat = (m - 1) as nat;
        let c: int = binomial(n, k);
        let b: int = binomial(n, m);
        let w: int = pow(a, k);
        reveal(pow);
        assert(pow(a, m) == a * w);
        assert(binomial(n + 1, m) == c + b);
        assert(binomial_sum(a, n + 1, m + 1) == binomial_sum(a, n + 1, m) + (c + b) * (a * w));
        assert(binomial_sum(a, n, m + 1) == binomial_sum(a, n, m) + b * (a * w));
        assert(binomial_sum(a, n, m) == binomial_sum(a, n, k) + c * w);
        assert((c + b) * (a * w) == c * (a * w) + b * (a * w)) by {
            lemma_mul_is_distributive_add_other_way(a * w, c, b);
        }
        assert(a * (binomial_sum(a, n, k) + c * w) == a * binomial_sum(a, n, k) + c * (a * w)) by {
            lemma_mul_is_distributive_add(a, binomial_sum(a, n, k), c * w);
            lemma_mul_is_associative(a, c, w);
            lemma_mul_is_commutative(a, c);
            lemma_mul_is_associative(c, a, w);
        }
    }
}

/// The binomial theorem for `(a + 1)` to the power `n`.
pub proof fn lemma_binomial_theorem(a: int, n: nat)
    ensures
        pow(a + 1, n) == binomial_sum(a, n, n + 1),
    decreases n,
{
    lemma_pow0(a + 1);
    lemma_pow0(a);
    if n == 0 {
        reveal_with_fuel(binomial_sum, 2);
    } else {
        let k: nat = (n - 1) as nat;
        lemma_binomial_theorem(a, k);
        lemma_binomial_sum_step(a, k, n);
        reveal(pow);
        assert(pow(a + 1, n) == (a + 1) * pow(a + 1, k));
        lemma_binomial_above(k, n);
        assert(binomial_sum(a, k, n + 1) == binomial_sum(a, k, n) + binomial(k, n) * pow(a, n));
        lemma_mul_basics(pow(a, n));
        lemma_mul_is_distributive_add_other_way(pow(a + 1, k), a, 1);
        lemma_mul_basics(pow(a + 1, k));
    }
}

proof fn lemma_binomial_prime(n: nat, k: nat)
    requires
        is_prime(n as int),
        0 < k < n,
    ensures
        binomial(n, k) % (n as int) == 0,
{
    lemma_binomial_absorb(n, k);
    modular::lemma_cong_shift(0, binomial((n - 1) as nat, (k - 1) as nat), n as int);
    lemma_euclid(k as int, binomial(n, k), n as int);
    modular::lemma_small(k as int, n as int);
}

proof fn lemma_binomial_sum_prime(a: int, n: nat, m: nat)
    requires
        is_prime(n as int),
        1 <= m <= n,
    ensures
        binomial_sum(a, n, m) % (n as int) == 1,
    decreases m,
{
    lemma_pow0(a);
    modular::lemma_small(1, n as int);
    modular::lemma_small(0, n as int);
    if m == 1 {
        reveal_with_fuel(binomial_sum, 2);
    } else {
        let k: nat = (m - 1) as nat;
        lemma_binomial_sum_prime(a, n, k);
        lemma_binomial_prime(n, k);
        modular::lemma_cong_mul(binomial(n, k), 0, pow(a, k), pow(a, k), n as int);
        modular::lemma_cong_add(
            binomial_sum(a, n, k),
            1,
            binomial(n, k) * pow(a, k),
            0,
            n as int,
        );
    }
}

/// The `n`-th power fixes every residue modulo a prime `n`.
proof fn lemma_fermat_power(a: nat, n: nat)
    requires
        is_prime(n as int),
    ensures
        pow(a as int, n) % (n as int) == (a as int) % (n as int),
    decreases a,
{
    if a == 0 {
        lemma0_pow(n);
    } else {
        let b: int = a - 1;
        lemma_fermat_power(b as nat, n);
        lemma_binomial_theorem(b, n);
        lemma_binomial_sum_prime(b, n, n);
        assert(binomial_sum(b, n, n + 1) == binomial_sum(b, n, n) + binomial(n, n) * pow(b, n));
        lemma_binomial_diagonal(n);
        lemma_mul_basics(pow(b, n));
        modular::lemma_small(1, n as int);
        modular::lemma_cong_add(binomial_sum(b, n, n), 1, pow(b, n), b, n as int);
    }
}

proof fn lemma_binomial_diagonal(n: nat)
    ensures
        binomial(n, n) == 1,
    decreases n,
{
    if n > 0 {
        lemma_binomial_diagonal((n - 1) as nat);
        lemma_binomial_above((n - 1) as nat, n);
    }
}

/// Fermat's little theorem.
pub proof fn lemma_fermat(a: int, n: int)
    requires
        is_prime(n),
        a % n != 0,
    ensures
        pow(a, (n - 1) as nat) % n == 1,
{
    let c: int = a % n;
    modular::lemma_cong_reduce(a, n);
    lemma_fermat_power(c as nat, n as nat);
    let w: int = pow(c, (n - 1) as nat);
    reveal(pow);
    assert(pow(c, n as nat) == c * w);
    lemma_mul_basics(c);
    modular::lemma_small(c, n);
    lemma_cancel(c, w, 1, n);
    modular::lemma_small(1, n);
    modular::lemma_cong_pow(a, c, (n - 1) as nat, n);
}

/// If the prime `q` does not divide `s - 1`, then a `q`-th power that is one modulo the
/// prime `s` has a base that is one.
proof fn lemma_root_of_one(a: int, m: nat, q: int, s: int)
    requires
        is_prime(s),
        is_prime(q),
        a % s != 0,
        (s - 1) % q != 0,
        pow(a, (m * q) as nat) % s == 1,
    ensures
        pow(a, m) % s == 1,
{
    let r = lemma_bezout(q, s - 1);
    let g: int = r.2;
    lemma_prime_divisor_trivial(q, g);
    assert(g == 1);
    let u: int = r.0;
    let t: int = r.1;
    let k: int = (if u < 0 { -u } else { u }) + 1;
    // q * v == 1 + (s - 1) * w with v and w not negative
    let v: int = u + (s - 1) * k;
    let w: int = q * k - t;
    assert((s - 1) * k >= k) by {
        lemma_mul_inequality(1, s - 1, k);
        lemma_mul_basics(k);
    }
    assert(q * v == 1 + (s - 1) * w) by {
        ring::lemma_bezout_shift(q, s - 1, u, t, k);
    }
    assert(w >= 0) by {
        lemma_mul_inequality(1, v, q);
        lemma_mul_is_commutative(q, v);
        lemma_mul_basics(q);
        if w < 0 {
            lemma_mul_inequality(w, -1, s - 1);
            lemma_mul_is_commutative(s - 1, w);
            lemma_mul_is_commutative(s - 1, -1);
        }
    }
    let vn: nat = v as nat;
    let wn: nat = w as nat;
    let mq: nat = (m * q) as nat;
    let sn: nat = (s - 1) as nat;
    lemma_mul_nonnegative(m as int, q);
    lemma_mul_nonnegative(m as int, w);
    let mw: nat = (m * wn) as nat;
    assert(mq * vn == m + sn * mw) by {
        lemma_mul_is_associative(m as int, q, v);
        lemma_mul_is_distributive_add(m as int, 1, (s - 1) * w);
        lemma_mul_basics(m as int);
        lemma_mul_is_associative(m as int, s - 1, w);
        lemma_mul_is_commutative(m as int, s - 1);
        lemma_mul_is_associative(s - 1, m as int, w);
    }
    lemma_mul_nonnegative(sn as int, mw as int);
    lemma_mul_nonnegative(mq as int, vn as int);
    modular::lemma_small(1, s);
    // the power with exponent m * q * v is one
    lemma_pow_multiplies(a, mq, vn);
    modular::lemma_cong_pow(pow(a, mq), 1, vn, s);
    lemma1_pow(vn);
    // and it is the m-th power of a times a power of the (s - 1)-th
    lemma_fermat(a, s);
    lemma_pow_multiplies(a, sn, mw);
    modular::lemma_cong_pow(pow(a, sn), 1, mw, s);
    lemma1_pow(mw);
    lemma_pow_adds(a, m, (sn * mw) as nat);
    modular::lemma_cong_mul(pow(a, m), pow(a, m), pow(a, (sn * mw) as nat), 1, s);
    lemma_mul_basics(pow(a, m));
}

/// Pocklington's criterion with one prime factor `q` of `n - 1 == m * q`: `a` is the
/// witness and `w` an inverse of its `m`-th power less one.
///
/// Every prime divisor of `n` is then one more than a multiple of `q`, and a product of
/// two such numbers would need `m` to be `x * y * q + x + y`, which the last condition
/// rules out.
pub proof fn lemma_pocklington(n: int, q: int, m: nat, a: int, w: int)
    requires
        is_prime(q),
        n > 1,
        n - 1 == m * q,
        pow(a, (n - 1) as nat) % n == 1,
        ((pow(a, m) - 1) * w) % n == 1,
        m / (q as nat) + 1 < q,
        m / (q as nat) == 0 || m % (q as nat) > m / (q as nat) + 1,
    ensures
        is_prime(n),
{
    let s = lemma_prime_divisor(n);
    lemma_pocklington_divisor(n, q, m, a, w, s);
    if s != n {
        let c: int = n / s;
        modular::lemma_multiple(n, s);
        assert(n == s * c);
        assert(c > 1) by {
            if c <= 0 {
                lemma_mul_inequality(c, 0, s);
                lemma_mul_is_commutative(c, s);
                lemma_mul_basics(s);
            }
            lemma_mul_basics(s);
        }
        // c is one more than a multiple of q as well
        modular::lemma_small(1, q);
        modular::lemma_cong_shift(1, m as int, q);
        assert(n % q == 1);
        modular::lemma_cong_mul(s, 1, c, c, q);
        lemma_mul_basics(c);
        modular::lemma_cong_difference(s, 1, q);
        modular::lemma_cong_difference(c, 1, q);
        modular::lemma_multiple(s - 1, q);
        modular::lemma_multiple(c - 1, q);
        let x: int = (s - 1) / q;
        let y: int = (c - 1) / q;
        assert(x >= 1 && y >= 1) by {
            if x <= 0 {
                lemma_mul_inequality(x, 0, q);
                lemma_mul_is_commutative(x, q);
            }
            if y <= 0 {
                lemma_mul_inequality(y, 0, q);
                lemma_mul_is_commutative(y, q);
            }
        }
        let k: int = (m / (q as nat)) as int;
        let r: int = (m % (q as nat)) as int;
        assert(m == x * y * q + x + y) by {
            ring::lemma_product_of_successors(q, x, y);
            lemma_mul_is_commutative(m as int, q);
            lemma_mul_is_commutative(x * y * q + x + y, q);
            lemma_mul_equality_converse(q, m as int, x * y * q + x + y);
        }
        lemma_fundamental_div_mod(m as int, q);
        lemma_mod_bound(m as int, q);
        assert(m == q * k + r);
        assert(x + y <= x * y + 1) by {
            // (x - 1) * (y - 1) is not negative
            lemma_mul_nonnegative(x - 1, y - 1);
            lemma_mul_is_distributive_sub(x - 1, y, 1);
            lemma_mul_is_distributive_sub_other_way(y, x, 1);
            lemma_mul_basics(x - 1);
            lemma_mul_basics(y);
        }
        let z: int = x * y;
        lemma_mul_is_commutative(z, q);
        assert(q * z + x + y == q * k + r);
        if z > k {
            lemma_mul_inequality(k + 1, z, q);
            lemma_mul_is_commutative(z, q);
            lemma_mul_is_commutative(k + 1, q);
            lemma_mul_is_distributive_add(q, k, 1);
            assert(false);
        }
        // x + y < q, so the quotient and the remainder are z and x + y
        lemma_fundamental_div_mod_converse(m as int, q, z, x + y);
        assert(z == k && r == x + y);
        assert(z >= 1) by {
            lemma_mul_strictly_positive(x, y);
        }
        assert(false);
    }
}

/// A prime divisor of `n`, under the conditions of the criterion, is one modulo `q`.
proof fn lemma_pocklington_divisor(n: int, q: int, m: nat, a: int, w: int, s: int)
    requires
        is_prime(q),
        is_prime(s),
        n > 1,
        n % s == 0,
        n - 1 == m * q,
        pow(a, (n - 1) as nat) % n == 1,
        ((pow(a, m) - 1) * w) % n == 1,
    ensures
        s % q == 1,
{
    modular::lemma_small(1, n);
    modular::lemma_small(1, s);
    modular::lemma_small(0, s);
    modular::lemma_small(1, q);
    modular::lemma_cong_divisor(pow(a, (n - 1) as nat), 1, n, s);
    modular::lemma_cong_divisor((pow(a, m) - 1) * w, 1, n, s);
    if a % s == 0 {
        modular::lemma_cong_pow(a, 0, (n - 1) as nat, s);
        lemma0_pow((n - 1) as nat);
    }
    if (s - 1) % q != 0 {
        lemma_root_of_one(a, m, q, s);
        modular::lemma_cong_sub(pow(a, m), 1, 1, 1, s);
        modular::lemma_cong_mul(pow(a, m) - 1, 0, w, w, s);
        assert(false);
    }
    modular::lemma_cong_difference(s, 1, q);
}

/// A number without divisors below `b` is prime if the square of `b` exceeds it.
pub proof fn lemma_trial_division(n: int, b: int)
    requires
        n > 1,
        b > 1,
        b * b > n,
        forall|d: int| 1 < d < b ==> #[trigger] (n % d) != 0,
    ensures
        is_prime(n),
{
    let s = lemma_prime_divisor(n);
    if s != n {
        let c: int = n / s;
        modular::lemma_multiple(n, s);
        if s < b {
            assert(n % s != 0);
        }
        if c >= b {
            lemma_mul_inequality(b, s, b);
            lemma_mul_inequality(b, c, s);
            lemma_mul_is_commutative(b, s);
            lemma_mul_is_commutative(c, s);
            assert(false);
        }
        if c <= 0 {
            lemma_mul_inequality(c, 0, s);
            lemma_mul_is_commutative(c, s);
            lemma_mul_basics(s);
        }
        lemma_mul_basics(s);
        assert(1 < c < b);
        modular::lemma_cong_shift(0, s, c);
        modular::lemma_small(0, c);
        assert(n % c == 0);
        assert(false);
    }
}

} // verus!
