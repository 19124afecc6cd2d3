//! Identities of integer polynomials, each a step of some proof elsewhere.
use vstd::arithmetic::mul::*;
use vstd::prelude::*;

verus! {

pub broadcast group group_ring {
    group_mul_is_commutative_and_distributive,
    lemma_mul_is_associative,
}

/// One step of the extended Euclidean algorithm.
pub proof fn lemma_bezout_step(a: int, b: int, q: int, x: int, y: int)
    ensures
        a * y + b * (x - q * y) == b * x + (a - b * q) * y,
{
    broadcast use group_ring;

}

/// Bezout coefficients may be shifted along a multiple of the two numbers.
pub proof fn lemma_bezout_shift(q: int, s: int, u: int, t: int, k: int)
    ensures
        q * (u + s * k) == q * u + s * t + s * (q * k - t),
{
    broadcast use group_ring;

}

/// The product of two numbers that are one modulo `q`.
pub proof fn lemma_product_of_successors(q: int, x: int, y: int)
    ensures
        (q * x + 1) * (q * y + 1) == (x * y * q + x + y) * q + 1,
{
    assert((q * x + 1) * (q * y + 1) == (q * x) * (q * y) + q * x + q * y + 1) by {
        broadcast use group_mul_is_distributive;

    }
    assert((x * y * q + x + y) * q == (x * y * q) * q + x * q + y * q) by {
        broadcast use group_mul_is_distributive;

    }
    assert((q * x) * (q * y) == (x * y * q) * q) by {
        broadcast use {lemma_mul_is_associative, lemma_mul_is_commutative};

    }
    lemma_mul_is_commutative(q, x);
    lemma_mul_is_commutative(q, y);
}

/// The square of `i x + e y` for a square root `e` of one.
pub proof fn lemma_square_of_root(i: int, x: int, y: int, e: int)
    requires
        e * e == 1,
    ensures
        (i * x + e * y) * (i * x + e * y) == (i * i + 1) * (x * x) + (y * y - x * x) + 2 * (e * (i
            * (x * y))),
{
    lemma_square_of_sum(i, x, y, e);
}

proof fn lemma_square_of_sum(i: int, x: int, y: int, e: int)
    ensures
        (i * x + e * y) * (i * x + e * y) == (i * i) * (x * x) + (e * e) * (y * y) + 2 * (e
            * (i * (x
            * y))),
        (i * i + 1) * (x * x) == (i * i) * (x * x) + x * x,
{
    broadcast use group_ring;

}

/// `d t1^2` times a square of the shape that [`lemma_square_of_root`] gives.
pub proof fn lemma_square_quotient(d: int, t1: int, t2: int, i: int, h: int, g: int)
    requires
        g == h + 1 + d * (t2 * t2) + 2 * (i * t2),
    ensures
        d * ((t1 * t1) * g) == (d * (t1 * t1)) * h + d * (t1 * t1) + (d * (t1 * t2)) * (d * (t1
            * t2))
            + 2 * ((i * t1) * (d * (t1 * t2))),
{
    let m: int = d * (t1 * t1);
    assert(d * ((t1 * t1) * g) == m * h + m + m * (d * (t2 * t2)) + 2 * (m * (i * t2))) by {
        lemma_mul_is_associative(d, t1 * t1, g);
        lemma_mul_is_distributive_add(m, h + 1 + d * (t2 * t2), 2 * (i * t2));
        lemma_mul_is_distributive_add(m, h + 1, d * (t2 * t2));
        lemma_mul_is_distributive_add(m, h, 1);
        lemma_mul_is_associative(m, 2, i * t2);
        lemma_mul_is_commutative(m, 2);
        lemma_mul_is_associative(2, m, i * t2);
        lemma_mul_basics(m);
    }
    lemma_square_quotient_squares(d, t1, t2);
    lemma_square_quotient_mixed(d, t1, t2, i);
}

proof fn lemma_square_quotient_squares(d: int, t1: int, t2: int)
    ensures
        (d * (t1 * t1)) * (d * (t2 * t2)) == (d * (t1 * t2)) * (d * (t1 * t2)),
{
    broadcast use {lemma_mul_is_associative, lemma_mul_is_commutative};

}

proof fn lemma_square_quotient_mixed(d: int, t1: int, t2: int, i: int)
    ensures
        (d * (t1 * t1)) * (i * t2) == (i * t1) * (d * (t1 * t2)),
{
    broadcast use {lemma_mul_is_associative, lemma_mul_is_commutative};

}

/// The square of a product.
pub proof fn lemma_square_of_product(a: int, b: int)
    ensures
        (a * b) * (a * b) == (a * a) * (b * b),
{
    broadcast use {lemma_mul_is_associative, lemma_mul_is_commutative};

}

/// A difference from a square root of one is a factor of both differences.
pub proof fn lemma_unit_square(e: int, z: int, k: int)
    requires
        e * e == 1,
    ensures
        1 - z * z + 2 * (e * k) - 2 * (k * z) == (e - z) * (e + z + 2 * k),
{
    lemma_unit_square_expanded(e, z, k);
}

proof fn lemma_unit_square_expanded(e: int, z: int, k: int)
    ensures
        e * e - z * z + 2 * (e * k) - 2 * (k * z) == (e - z) * (e + z + 2 * k),
{
    broadcast use group_ring;

}

/// Negating a factor.
pub proof fn lemma_negated_pair(x: int, y: int)
    ensures
        x * (-y) == -(x * y),
        (-y) * (-y) == y * y,
        (x * (-y)) * (x * (-y)) == (x * y) * (x * y),
{
    lemma_mul_unary_negation(x, y);
    lemma_mul_cancels_negatives(y, y);
    lemma_mul_cancels_negatives(x * y, x * y);
}

/// Negating both factors.
pub proof fn lemma_negated_product(a: int, b: int)
    ensures
        (-a) * (-b) == a * b,
{
    lemma_mul_cancels_negatives(a, b);
}

/// The quotient of `f` by `c` squared, for an approximate inverse `k` of `c`.
pub proof fn lemma_square_quotient_scaled(f: int, c: int, d: int, k: int)
    ensures
        (f * k) * (f * k) - d == (k * k) * (f * f - d * (c * c)) + (d * (c * k + 1)) * (c * k - 1),
{
    broadcast use group_ring;

}

/// The sums that the addition law is made of: their squares and their product.
pub proof fn lemma_addition_sums(x1: int, y1: int, x2: int, y2: int)
    ensures
        ({
            let a = x1 * y2 + x2 * y1;
            let b = y1 * y2 + x1 * x2;
            let s1 = x1 * x1 + y1 * y1;
            let s2 = x2 * x2 + y2 * y2;
            let c1 = y1 * y1 - x1 * x1;
            let c2 = y2 * y2 - x2 * x2;
            let t1 = x1 * y1;
            let t2 = x2 * y2;
            &&& a * b == t1 * s2 + t2 * s1
            &&& b * b - a * a == c1 * c2
            &&& a * a + b * b == s1 * s2 + 4 * (t1 * t2)
            &&& s1 * s1 == c1 * c1 + 4 * (t1 * t1)
            &&& s2 * s2 == c2 * c2 + 4 * (t2 * t2)
        }),
{
    lemma_sums_product(x1, y1, x2, y2);
    lemma_sums_squares(x1, y1, x2, y2);
    lemma_sum_and_difference_of_squares(x1, y1);
    lemma_sum_and_difference_of_squares(x2, y2);
}

proof fn lemma_sums_product(x1: int, y1: int, x2: int, y2: int)
    ensures
        (x1 * y2 + x2 * y1) * (y1 * y2 + x1 * x2) == (x1 * y1) * (x2 * x2 + y2 * y2) + (x2
            * y2) * (x1
            * x1 + y1 * y1),
{
    broadcast use group_ring;

}

proof fn lemma_sums_squares(x1: int, y1: int, x2: int, y2: int)
    ensures
        (y1 * y2 + x1 * x2) * (y1 * y2 + x1 * x2) - (x1 * y2 + x2 * y1) * (x1 * y2 + x2 * y1) == (y1
            * y1 - x1 * x1) * (y2 * y2 - x2 * x2),
        (x1 * y2 + x2 * y1) * (x1 * y2 + x2 * y1) + (y1 * y2 + x1 * x2) * (y1 * y2 + x1 * x2) == (x1
            * x1 + y1 * y1) * (x2 * x2 + y2 * y2) + 4 * ((x1 * y1) * (x2 * y2)),
{
    broadcast use group_ring;

}

proof fn lemma_sum_and_difference_of_squares(x: int, y: int)
    ensures
        (x * x + y * y) * (x * x + y * y) == (y * y - x * x) * (y * y - x * x) + 4 * ((x * y) * (x
            * y)),
{
    broadcast use group_ring;

}

/// `d` times the square of `t1 s2 + t2 s1`.
pub proof fn lemma_scaled_square(d: int, t1: int, t2: int, s1: int, s2: int)
    ensures
        d * ((t1 * s2 + t2 * s1) * (t1 * s2 + t2 * s1)) == (d * (t1 * t1)) * (s2 * s2) + (d * (t2
            * t2)) * (s1 * s1) + 2 * ((d * (t1 * t2)) * (s1 * s2)),
{
    broadcast use group_ring;

}

/// `d t1^2 t2^2`, written in three ways.
pub proof fn lemma_scaled_product(d: int, t1: int, t2: int)
    ensures
        (d * (t1 * t1)) * (t2 * t2) == (d * (t1 * t2)) * (t1 * t2),
        (d * (t2 * t2)) * (t1 * t1) == (d * (t1 * t2)) * (t1 * t2),
        (d * (t1 * t1)) * (d * (t2 * t2)) == (d * (t1 * t2)) * (d * (t1 * t2)),
{
    broadcast use {lemma_mul_is_associative, lemma_mul_is_commutative};

}

/// The squares of one plus and one minus `z`.
pub proof fn lemma_plus_minus_squares(z: int, a: int, b: int)
    ensures
        (b * b) * ((1 + z) * (1 + z)) - (a * a) * ((1 - z) * (1 - z)) == (b * b - a * a) * (1
            + z * z)
            + 2 * (z * (a * a + b * b)),
        (1 + z) * (1 - z) == 1 - z * z,
{
    broadcast use group_ring;

}

/// The polynomial that decides closure is zero at `1 + m`, `1 + n`.
pub proof fn lemma_closure_root(m: int, n: int)
    ensures
        (1 + m) * (1 + n) * (1 + m * n) - (1 - m * n) * (1 - m * n) - m * ((1 + n) * (1 + n))
            - n * ((1
            + m) * (1 + m)) == 0,
{
    let k: int = m * n;
    assert((1 + m) * (1 + n) == 1 + m + n + k) by {
        broadcast use group_ring;

    }
    assert((1 + m + n + k) * (1 + k) == 1 + m + n + k + k + m * k + n * k + k * k) by {
        broadcast use group_ring;

    }
    assert((1 - k) * (1 - k) == 1 - 2 * k + k * k) by {
        broadcast use group_ring;

    }
    assert(m * ((1 + n) * (1 + n)) == m + 2 * k + n * k) by {
        broadcast use group_ring;

    }
    assert(n * ((1 + m) * (1 + m)) == n + 2 * k + m * k) by {
        broadcast use group_ring;

    }
}

/// How that polynomial changes with its arguments.
pub proof fn lemma_closure_difference(m: int, n: int, u: int, c1: int, k1: int, c2: int, k2: int)
    ensures
        (c1 * c2 * u - m * (c2 * c2) - n * (c1 * c1)) - (k1 * k2 * u - m * (k2 * k2) - n * (k1
            * k1))
            == (u * c2 - n * (c1 + k1)) * (c1 - k1) + (u * k1 - m * (c2 + k2)) * (c2 - k2),
{
    broadcast use group_ring;

}

/// The curve equation, cleared of denominators.
pub proof fn lemma_cleared_defect(d: int, x: int, y: int, f: int, g: int)
    ensures
        (y * y - x * x - 1 - d * ((x * y) * (x * y))) * ((f * g) * (f * g)) == ((y * g) * (y
            * g)) * (
        f * f) - ((x * f) * (x * f)) * (g * g) - (f * g) * (f * g) - d * (((x * f) * (y * g))
            * ((x * f)
            * (y * g))),
{
    lemma_cleared_square(y, f, g);
    lemma_cleared_square(x, g, f);
    lemma_mul_is_commutative(f, g);
    lemma_cleared_product(x, y, f, g);
    let k: int = (f * g) * (f * g);
    let z: int = (x * y) * (x * y);
    lemma_mul_is_associative(d, z, k);
    lemma_mul_is_distributive_sub_other_way(k, y * y - x * x - 1, d * z);
    lemma_mul_is_distributive_sub_other_way(k, y * y - x * x, 1);
    lemma_mul_is_distributive_sub_other_way(k, y * y, x * x);
    lemma_mul_basics(k);
}

proof fn lemma_cleared_square(y: int, f: int, g: int)
    ensures
        (y * y) * ((f * g) * (f * g)) == ((y * g) * (y * g)) * (f * f),
{
    broadcast use {lemma_mul_is_associative, lemma_mul_is_commutative};

}

proof fn lemma_cleared_product(x: int, y: int, f: int, g: int)
    ensures
        ((x * y) * (x * y)) * ((f * g) * (f * g)) == ((x * f) * (y * g)) * ((x * f) * (y * g)),
{
    lemma_square_of_product(x * y, f * g);
    assert((x * y) * (f * g) == (x * f) * (y * g)) by {
        broadcast use {lemma_mul_is_associative, lemma_mul_is_commutative};

    }
}

/// How the cleared curve equation changes with its arguments.
pub proof fn lemma_cleared_difference(d: int, a: int, b: int, r: int, s: int, k: int, l: int)
    ensures
        ((b + s) * (b + s)) * k - ((a + r) * (a + r)) * l - d * (((a + r) * (b + s)) * ((a + r) * (b
            + s))) - ((b * b) * k - (a * a) * l - d * ((a * b) * (a * b))) == (k * (2 * b + s))
                * s - (l
            * (2 * a + r)) * r - (d * ((a + r) * (b + s) + a * b)) * ((a + r) * s) - (d * ((a
                + r) * (b
            + s) + a * b)) * (b * r),
{
    let u: int = (a + r) * (b + s);
    let v: int = a * b;
    assert((b + s) * (b + s) - b * b == (2 * b + s) * s) by {
        broadcast use group_ring;

    }
    assert((a + r) * (a + r) - a * a == (2 * a + r) * r) by {
        broadcast use group_ring;

    }
    assert(u - v == (a + r) * s + b * r) by {
        broadcast use group_ring;

    }
    assert(u * u - v * v == (u + v) * (u - v)) by {
        broadcast use group_ring;

    }
    lemma_scaled_difference(k, (b + s) * (b + s), b * b, 2 * b + s, s);
    lemma_scaled_difference(l, (a + r) * (a + r), a * a, 2 * a + r, r);
    lemma_mul_is_distributive_sub(d, u * u, v * v);
    lemma_mul_is_associative(d, u + v, u - v);
    lemma_mul_is_distributive_add(d * (u + v), (a + r) * s, b * r);
}

proof fn lemma_scaled_difference(k: int, x: int, y: int, q: int, s: int)
    requires
        x - y == q * s,
    ensures
        x * k - y * k == (k * q) * s,
{
    lemma_mul_is_distributive_sub_other_way(k, x, y);
    lemma_mul_is_commutative(k, q * s);
    lemma_mul_is_associative(k, q, s);
}

/// The numerator of `(P1 + P2) + P3` sorted by the coordinates of `P2`.
pub proof fn lemma_triple_numerator(x1: int, y1: int, x2: int, y2: int, x3: int, y3: int, z: int)
    ensures
        ({
            let a = x1 * y2 + x2 * y1;
            let b = y1 * y2 + x1 * x2;
            let pp = x1 * x3 + y1 * y3;
            let qq = x1 * y3 + x3 * y1;
            let al = x1 * x3 - y1 * y3;
            let be = x1 * y3 - x3 * y1;
            (a * (1 - z)) * y3 + (b * (1 + z)) * x3 == (x2 * pp + y2 * qq) + z * (x2 * al - y2 * be)
        }),
{
    let a: int = x1 * y2 + x2 * y1;
    let b: int = y1 * y2 + x1 * x2;
    assert((a * (1 - z)) * y3 + (b * (1 + z)) * x3 == (a * y3 + b * x3) + z * (b * x3 - a
        * y3)) by {
        broadcast use group_ring;

    }
    assert(a * y3 + b * x3 == x2 * (x1 * x3 + y1 * y3) + y2 * (x1 * y3 + x3 * y1)) by {
        broadcast use group_ring;

    }
    assert(b * x3 - a * y3 == x2 * (x1 * x3 - y1 * y3) - y2 * (x1 * y3 - x3 * y1)) by {
        broadcast use group_ring;

    }
}

/// The products of the sums that [`lemma_triple_numerator`] names.
pub proof fn lemma_triple_products(x1: int, y1: int, x3: int, y3: int)
    ensures
        ({
            let pp = x1 * x3 + y1 * y3;
            let qq = x1 * y3 + x3 * y1;
            let al = x1 * x3 - y1 * y3;
            let be = x1 * y3 - x3 * y1;
            let t1 = x1 * y1;
            let t3 = x3 * y3;
            let s1 = x1 * x1 + y1 * y1;
            let s3 = x3 * x3 + y3 * y3;
            &&& pp * be == t1 * (y3 * y3 - x3 * x3) - t3 * (y1 * y1 - x1 * x1)
            &&& qq * al == -(t1 * (y3 * y3 - x3 * x3)) - t3 * (y1 * y1 - x1 * x1)
            &&& al * be == t3 * s1 - t1 * s3
            &&& pp * qq == t1 * s3 + t3 * s1
            &&& pp * pp - al * al == 4 * (t1 * t3)
            &&& qq * qq - be * be == 4 * (t1 * t3)
        }),
{
    lemma_triple_mixed(x1, y1, x3, y3);
    lemma_triple_sums(x1, y1, x3, y3);
    lemma_triple_squares(x1, y1, x3, y3);
}

proof fn lemma_triple_mixed(x1: int, y1: int, x3: int, y3: int)
    ensures
        (x1 * x3 + y1 * y3) * (x1 * y3 - x3 * y1) == (x1 * y1) * (y3 * y3 - x3 * x3) - (x3
            * y3) * (y1
            * y1 - x1 * x1),
        (x1 * y3 + x3 * y1) * (x1 * x3 - y1 * y3) == -((x1 * y1) * (y3 * y3 - x3 * x3)) - (x3
            * y3) * (
        y1 * y1 - x1 * x1),
{
    broadcast use group_ring;

}

proof fn lemma_triple_sums(x1: int, y1: int, x3: int, y3: int)
    ensures
        (x1 * x3 - y1 * y3) * (x1 * y3 - x3 * y1) == (x3 * y3) * (x1 * x1 + y1 * y1) - (x1
            * y1) * (x3
            * x3 + y3 * y3),
        (x1 * x3 + y1 * y3) * (x1 * y3 + x3 * y1) == (x1 * y1) * (x3 * x3 + y3 * y3) + (x3
            * y3) * (x1
            * x1 + y1 * y1),
{
    broadcast use group_ring;

}

proof fn lemma_triple_squares(x1: int, y1: int, x3: int, y3: int)
    ensures
        (x1 * x3 + y1 * y3) * (x1 * x3 + y1 * y3) - (x1 * x3 - y1 * y3) * (x1 * x3 - y1 * y3)
            == 4 * ((
        x1 * y1) * (x3 * y3)),
        (x1 * y3 + x3 * y1) * (x1 * y3 + x3 * y1) - (x1 * y3 - x3 * y1) * (x1 * y3 - x3 * y1)
            == 4 * ((
        x1 * y1) * (x3 * y3)),
{
    broadcast use group_ring;

}

/// Two fractions with numerators `s + w a` and denominators `g + w v`, cross-multiplied.
pub proof fn lemma_cross_multiplied(s: int, g: int, w: int, a1: int, a3: int, v1: int, v3: int)
    ensures
        (s + w * a1) * (g + w * v3) - (s + w * a3) * (g + w * v1) == w * (s * (v3 - v1) + g * (a1
            - a3) + w * (a1 * v3 - a3 * v1)),
{
    broadcast use group_ring;

}

/// A coefficient of the associativity identity, with `r1` and `r2` the amounts by which two
/// relations between the outer points fail, and `r5` that of the middle point's equation.
pub proof fn lemma_coefficient(
    pp: int,
    qq: int,
    al: int,
    be: int,
    u: int,
    v: int,
    w: int,
    e: int,
    ta: int,
    s2: int,
    m: int,
    r1: int,
    r2: int,
    r5: int,
    n: int,
    yy: int,
)
    requires
        r1 == pp * be - v * (1 - e),
        r2 == qq * al + u * (1 + e),
        r5 == 1 + s2 + m - 2 * yy,
        w * (w * ta) == e * m,
        pp * pp - al * al == n,
    ensures
        2 * (pp * (w * (u * v) - al * be)) + 2 * ((1 + e * s2) * (al * v)) + (w * al) * ((pp
            * qq) * v
            - (al * be) * u + 2 * (w * (ta * v))) == (-2 * al - w * (u * pp)) * r1 + (w * (pp
                * v)) * r2
            + (2 * (al * (v * e))) * r5 + 4 * ((al * (v * e)) * yy) + (w * n) * (u * be),
{
    let k: int = al * (v * e);
    lemma_coefficient_first(pp, al, be, u, v, w);
    assert(al * (pp * be) == al * r1 + al * v - k) by {
        lemma_mul_is_distributive_sub(v, 1, e);
        lemma_mul_basics(v);
        lemma_mul_is_distributive_sub(al, r1 + v, v * e);
        lemma_mul_is_distributive_add(al, r1, v);
    }
    lemma_coefficient_scaled(e, s2, al, v);
    assert((w * al) * ((pp * qq) * v - (al * be) * u + 2 * (w * (ta * v))) == (w * (pp * v))
        * (qq * al)
        - (w * (u * be)) * (al * al) + 2 * ((w * (w * ta)) * (al * v))) by {
        lemma_coefficient_last(pp, qq, al, be, u, v, w, ta);
    }
    assert((w * (pp * v)) * (qq * al) == (w * (pp * v)) * r2 - w * (u * (v * pp)) - (w * (u
        * (v * pp)))
        * e) by {
        lemma_mul_is_distributive_add(u, 1, e);
        lemma_mul_basics(u);
        lemma_coefficient_middle(pp, u, v, w, e, r2);
    }
    assert((w * (w * ta)) * (al * v) == k * m) by {
        lemma_coefficient_square(e, m, al, v);
    }
    assert(w * (u * (v * pp)) - (w * (u * (v * pp))) * e - (w * (u * be)) * (al * al) == (w
        * n) * (u * be) - (w * (u * pp)) * r1) by {
        lemma_coefficient_relation(pp, al, be, u, v, w, e, n, r1);
    }
    assert(k * r5 == k + k * s2 + k * m - 2 * (k * yy)) by {
        lemma_mul_is_distributive_sub(k, 1 + s2 + m, 2 * yy);
        lemma_mul_is_distributive_add(k, 1 + s2, m);
        lemma_mul_is_distributive_add(k, 1, s2);
        lemma_mul_is_associative(k, 2, yy);
        lemma_mul_is_commutative(k, 2);
        lemma_mul_is_associative(2, k, yy);
        lemma_mul_basics(k);
    }
    assert((2 * k) * r5 == 2 * (k * r5)) by {
        lemma_mul_is_associative(2, k, r5);
    }
    assert((-2 * al - w * (u * pp)) * r1 == -2 * (al * r1) - (w * (u * pp)) * r1) by {
        lemma_mul_is_distributive_sub_other_way(r1, -2 * al, w * (u * pp));
        lemma_mul_is_associative(-2, al, r1);
    }
}

proof fn lemma_coefficient_first(pp: int, al: int, be: int, u: int, v: int, w: int)
    ensures
        pp * (w * (u * v) - al * be) == w * (u * (v * pp)) - al * (pp * be),
{
    broadcast use group_ring;

}

proof fn lemma_coefficient_scaled(e: int, s2: int, al: int, v: int)
    ensures
        (1 + e * s2) * (al * v) == al * v + (al * (v * e)) * s2,
{
    broadcast use group_ring;

}

proof fn lemma_coefficient_last(
    pp: int,
    qq: int,
    al: int,
    be: int,
    u: int,
    v: int,
    w: int,
    ta: int,
)
    ensures
        (w * al) * ((pp * qq) * v - (al * be) * u + 2 * (w * (ta * v))) == (w * (pp * v)) * (qq
            * al) - (
        w * (u * be)) * (al * al) + 2 * ((w * (w * ta)) * (al * v)),
{
    lemma_last_distributed(w * al, (pp * qq) * v, (al * be) * u, w * (ta * v));
    lemma_last_regrouped(w, al, pp, qq, v);
    lemma_last_regrouped(w, al, u, al, be);
    lemma_mul_is_commutative(u * al, be);
    lemma_mul_is_associative(be, u, al);
    lemma_mul_is_commutative(be, u * al);
    lemma_mul_is_commutative(al * be, u);
    lemma_mul_is_associative(u, al, be);
    lemma_last_regrouped(w, al, w, v, ta);
    lemma_mul_is_associative(w, v, ta);
    lemma_mul_is_commutative(v, ta);
    lemma_mul_is_commutative(v, al);
}

proof fn lemma_last_distributed(c: int, a: int, b: int, f: int)
    ensures
        c * (a - b + 2 * f) == c * a - c * b + 2 * (c * f),
{
    broadcast use group_ring;

}

proof fn lemma_last_regrouped(w: int, al: int, pp: int, qq: int, v: int)
    ensures
        (w * al) * ((pp * qq) * v) == (w * (pp * v)) * (qq * al),
{
    broadcast use {lemma_mul_is_associative, lemma_mul_is_commutative};

}

proof fn lemma_coefficient_middle(pp: int, u: int, v: int, w: int, e: int, r2: int)
    ensures
        (w * (pp * v)) * (r2 - u - u * e) == (w * (pp * v)) * r2 - w * (u * (v * pp)) - (w * (u * (v
            * pp))) * e,
{
    broadcast use group_ring;

}

proof fn lemma_coefficient_square(e: int, m: int, al: int, v: int)
    ensures
        (e * m) * (al * v) == (al * (v * e)) * m,
{
    broadcast use {lemma_mul_is_associative, lemma_mul_is_commutative};

}

proof fn lemma_coefficient_relation(
    pp: int,
    al: int,
    be: int,
    u: int,
    v: int,
    w: int,
    e: int,
    n: int,
    r1: int,
)
    requires
        r1 == pp * be - v * (1 - e),
        pp * pp - al * al == n,
    ensures
        w * (u * (v * pp)) - (w * (u * (v * pp))) * e - (w * (u * be)) * (al * al) == (w * n)
            * (u * be) - (w * (u * pp)) * r1,
{
    lemma_relation_squares(pp, al, be, u, w);
    lemma_relation_regrouped(u * be, w, n);
    lemma_relation_remainder(pp, be, u, v, w, e);
    lemma_mul_is_associative(w, u, be);
}

proof fn lemma_relation_regrouped(c: int, w: int, n: int)
    ensures
        (w * c) * n == (w * n) * c,
{
    broadcast use {lemma_mul_is_associative, lemma_mul_is_commutative};

}

proof fn lemma_relation_squares(pp: int, al: int, be: int, u: int, w: int)
    ensures
        (w * (u * be)) * (pp * pp - al * al) == (w * (u * pp)) * (pp * be) - (w * (u * be))
            * (al * al),
{
    broadcast use group_ring;

}

proof fn lemma_relation_remainder(pp: int, be: int, u: int, v: int, w: int, e: int)
    ensures
        (w * (u * pp)) * (pp * be - v * (1 - e)) == (w * (u * pp)) * (pp * be) - w * (u * (v
            * pp)) + (w
            * (u * (v * pp))) * e,
{
    broadcast use group_ring;

}

/// What the two coefficients leave behind cancels.
pub proof fn lemma_coefficients_cancel(
    x: int,
    y: int,
    al: int,
    be: int,
    u: int,
    v: int,
    e: int,
    w: int,
    ta: int,
)
    requires
        w * ta == e * (x * y),
    ensures
        x * (4 * ((al * (v * e)) * (y * y)) + (w * (4 * ta)) * (u * be)) + y * (4 * ((be * (-u
            * -e)) * -(
        x * x)) + (w * (4 * ta)) * (-v * al)) == 0,
{
    lemma_mul_is_associative(w, 4, ta);
    lemma_mul_is_commutative(w, 4);
    lemma_mul_is_associative(4, w, ta);
    let c: int = e * (x * y);
    assert(-u * -e == u * e) by {
        lemma_mul_cancels_negatives(u, e);
    }
    assert((be * (u * e)) * -(x * x) == -((be * (u * e)) * (x * x))) by {
        lemma_mul_unary_negation(be * (u * e), x * x);
    }
    assert(-v * al == -(v * al)) by {
        lemma_mul_unary_negation(v, al);
    }
    assert(c * -(v * al) == -(c * (v * al))) by {
        lemma_mul_unary_negation(c, v * al);
    }
    assert((4 * c) * (u * be) == 4 * (c * (u * be))) by {
        lemma_mul_is_associative(4, c, u * be);
    }
    assert((4 * c) * -(v * al) == -(4 * (c * (v * al)))) by {
        lemma_mul_is_associative(4, c, -(v * al));
    }
    let a1: int = (al * (v * e)) * (y * y);
    let a2: int = c * (u * be);
    let b1: int = (be * (u * e)) * (x * x);
    let b2: int = c * (v * al);
    lemma_factor_regrouped(e, x * y, v, al);
    lemma_factor_moved(x, y, al * (v * e));
    lemma_factor_regrouped(e, x * y, u, be);
    lemma_mul_is_commutative(u, be);
    lemma_factor_moved(y, x, be * (u * e));
    lemma_mul_is_commutative(x, y);
    lemma_four_times(x, a1, a2);
    lemma_four_times(y, -b1, -b2);
    lemma_mul_unary_negation(y, b1);
    lemma_mul_unary_negation(y, b2);
}

proof fn lemma_factor_regrouped(e: int, q: int, v: int, al: int)
    ensures
        (e * q) * (v * al) == (al * (v * e)) * q,
{
    broadcast use {lemma_mul_is_associative, lemma_mul_is_commutative};

}

proof fn lemma_factor_moved(x: int, y: int, k: int)
    ensures
        x * (k * (y * y)) == y * (k * (x * y)),
{
    broadcast use {lemma_mul_is_associative, lemma_mul_is_commutative};

}

proof fn lemma_four_times(x: int, a: int, b: int)
    ensures
        x * (4 * a + 4 * b) == 4 * (x * a) + 4 * (x * b),
{
    broadcast use group_ring;

}

/// The cross-multiplied difference, split by the coordinates of the middle point.
pub proof fn lemma_difference_split(
    x: int,
    y: int,
    pp: int,
    qq: int,
    al: int,
    be: int,
    u: int,
    v: int,
    w: int,
    g: int,
    dv: int,
    da: int,
    dav: int,
    m: int,
    n: int,
)
    requires
        da == (x * al) * v - (y * be) * u,
        2 * dav == (x * al) * m - (y * be) * n,
    ensures
        2 * ((x * pp + y * qq) * dv + g * da + w * dav) == x * (2 * (pp * dv) + 2 * (g * (al
            * v)) + (w
            * al) * m) + y * (2 * (qq * dv) + 2 * (g * (be * -u)) + (w * be) * -n),
{
    lemma_split_sum(x, y, pp, qq, dv);
    lemma_split_difference(x, y, al, be, v, u, g);
    lemma_split_difference(x, y, al, be, m, n, w);
    lemma_mul_is_associative(w, al, m);
    lemma_mul_is_associative(w, be, -n);
    lemma_mul_is_associative(w, 2, dav);
    lemma_mul_is_commutative(w, 2);
    lemma_mul_is_associative(2, w, dav);
    lemma_split_twice(x, pp * dv, g * (al * v), (w * al) * m);
    lemma_split_twice(y, qq * dv, g * (be * -u), (w * be) * -n);
}

proof fn lemma_split_sum(x: int, y: int, pp: int, qq: int, dv: int)
    ensures
        (x * pp + y * qq) * dv == x * (pp * dv) + y * (qq * dv),
{
    broadcast use group_ring;

}

proof fn lemma_split_difference(x: int, y: int, al: int, be: int, v: int, u: int, g: int)
    ensures
        g * ((x * al) * v - (y * be) * u) == x * (g * (al * v)) + y * (g * (be * -u)),
{
    lemma_mul_unary_negation(be, u);
    lemma_mul_unary_negation(g, be * u);
    lemma_mul_unary_negation(y, g * (be * u));
    lemma_split_factor(x, al, v, g);
    lemma_split_factor(y, be, u, g);
    lemma_mul_is_distributive_sub(g, (x * al) * v, (y * be) * u);
}

proof fn lemma_split_factor(x: int, al: int, v: int, g: int)
    ensures
        g * ((x * al) * v) == x * (g * (al * v)),
{
    broadcast use {lemma_mul_is_associative, lemma_mul_is_commutative};

}

proof fn lemma_split_twice(x: int, a: int, b: int, c: int)
    ensures
        x * (2 * a + 2 * b + c) == 2 * (x * a) + 2 * (x * b) + x * c,
{
    broadcast use group_ring;

}

/// How a product changes with its factors.
pub proof fn lemma_product_difference(a: int, b: int, r: int, s: int)
    ensures
        (a + r) * (b + s) - a * b == (a + r) * s + b * r,
{
    broadcast use group_ring;

}

/// The denominators of the two steps of a sum of three points, multiplied out.
pub proof fn lemma_two_denominators(f: int, g: int, dd: int, x: int, y: int, t: int)
    ensures
        (f * g) * (1 + dd * ((x * y) * t)) == f * g + dd * (((x * f) * (y * g)) * t),
{
    let c: int = (x * y) * t;
    lemma_mul_is_distributive_add(f * g, 1, dd * c);
    lemma_mul_basics(f * g);
    lemma_split_factor(dd, x * y, t, f * g);
    lemma_mul_is_associative(dd, x * y, t);
    lemma_mul_is_associative(f * g, x * y, t);
    lemma_two_products(f, g, x, y);
}

proof fn lemma_two_products(f: int, g: int, x: int, y: int)
    ensures
        (f * g) * (x * y) == (x * f) * (y * g),
{
    broadcast use {lemma_mul_is_associative, lemma_mul_is_commutative};

}

/// The numerators likewise.
pub proof fn lemma_two_numerators(f: int, g: int, x: int, y: int, x3: int, y3: int)
    ensures
        (f * g) * (x * y3 + x3 * y) == ((x * f) * g) * y3 + ((y * g) * f) * x3,
{
    broadcast use group_ring;

}

/// The denominator of `(P1 + P2) + P3`, sorted by the coordinates of `P2`.
pub proof fn lemma_triple_denominator(dd: int, t1: int, t2: int, t3: int, s1: int, s2: int)
    ensures
        (1 - (dd * (t1 * t2)) * (dd * (t1 * t2))) + dd * ((t1 * s2 + t2 * s1) * t3) == (1 + (dd
            * (t1
            * t3)) * s2) + (dd * t2) * (t3 * s1 - (dd * t2) * (t1 * t1)),
{
    assert(dd * ((t1 * s2 + t2 * s1) * t3) == (dd * (t1 * t3)) * s2 + (dd * t2) * (t3 * s1)) by {
        broadcast use group_ring;

    }
    lemma_square_regrouped(dd, t1, t2);
    lemma_mul_is_distributive_sub(dd * t2, t3 * s1, (dd * t2) * (t1 * t1));
}

proof fn lemma_square_regrouped(dd: int, t1: int, t2: int)
    ensures
        (dd * (t1 * t2)) * (dd * (t1 * t2)) == (dd * t2) * ((dd * t2) * (t1 * t1)),
{
    broadcast use {lemma_mul_is_associative, lemma_mul_is_commutative};

}

/// The difference of the two denominators.
pub proof fn lemma_denominator_difference(w: int, t1: int, t3: int, s1: int, s3: int, ab: int)
    requires
        ab == t3 * s1 - t1 * s3,
    ensures
        (t1 * s3 - w * (t3 * t3)) - (t3 * s1 - w * (t1 * t1)) == w * ((t1 + t3) * (t1 - t3)) - ab,
{
    assert((t1 + t3) * (t1 - t3) == t1 * t1 - t3 * t3) by {
        broadcast use group_ring;

    }
    lemma_mul_is_distributive_sub(w, t1 * t1, t3 * t3);
}

/// The difference of the two numerators.
pub proof fn lemma_numerator_difference(t1: int, t3: int, x: int, y: int)
    ensures
        t1 * (x - y) - t3 * (x + y) == x * (t1 - t3) - y * (t1 + t3),
{
    broadcast use group_ring;

}

/// The mixed products of numerators and denominators, doubled.
pub proof fn lemma_mixed_difference(
    t1: int,
    t3: int,
    x: int,
    y: int,
    w: int,
    k1: int,
    k3: int,
    pq: int,
    ab: int,
)
    requires
        2 * k1 == pq + ab,
        2 * k3 == pq - ab,
    ensures
        2 * ((t1 * (x - y)) * (k3 - w * (t3 * t3)) - (t3 * (x + y)) * (k1 - w * (t1 * t1)))
            == x * (pq * (
        t1 - t3) - ab * (t1 + t3) + 2 * (w * ((t1 * t3) * (t1 - t3)))) - y * (pq * (t1 + t3)
            - ab * (t1
            - t3) - 2 * (w * ((t1 * t3) * (t1 + t3)))),
{
    let v1: int = k1 - w * (t1 * t1);
    let v3: int = k3 - w * (t3 * t3);
    let m: int = pq * (t1 - t3) - ab * (t1 + t3) + 2 * (w * ((t1 * t3) * (t1 - t3)));
    let n: int = pq * (t1 + t3) - ab * (t1 - t3) - 2 * (w * ((t1 * t3) * (t1 + t3)));
    assert((t1 * (x - y)) * v3 - (t3 * (x + y)) * v1 == x * (t1 * v3 - t3 * v1) - y * (t1 * v3 + t3
        * v1)) by {
        lemma_mixed_sorted(t1, t3, x, y, v1, v3);
    }
    lemma_mixed_one(t1, t3, w, k3, pq - ab);
    lemma_mixed_one(t3, t1, w, k1, pq + ab);
    lemma_mul_is_commutative(t1, t3);
    lemma_mixed_products(t1, t3, pq, ab, w * (t1 * t3));
    lemma_mul_is_associative(w, t1 * t3, t1 - t3);
    lemma_mul_is_associative(w, t1 * t3, t1 + t3);
    assert(2 * (t1 * v3 - t3 * v1) == m);
    assert(2 * (t1 * v3 + t3 * v1) == n);
    lemma_mul_is_associative(2, x, t1 * v3 - t3 * v1);
    lemma_mul_is_associative(x, 2, t1 * v3 - t3 * v1);
    lemma_mul_is_commutative(x, 2);
    lemma_mul_is_associative(2, y, t1 * v3 + t3 * v1);
    lemma_mul_is_associative(y, 2, t1 * v3 + t3 * v1);
    lemma_mul_is_commutative(y, 2);
}

proof fn lemma_mixed_sorted(t1: int, t3: int, x: int, y: int, v1: int, v3: int)
    ensures
        (t1 * (x - y)) * v3 - (t3 * (x + y)) * v1 == x * (t1 * v3 - t3 * v1) - y * (t1 * v3
            + t3 * v1),
{
    broadcast use group_ring;

}

proof fn lemma_mixed_one(t1: int, t3: int, w: int, k3: int, c: int)
    requires
        2 * k3 == c,
    ensures
        2 * (t1 * (k3 - w * (t3 * t3))) == t1 * c - 2 * ((w * (t1 * t3)) * t3),
{
    lemma_mul_is_distributive_sub(t1, k3, w * (t3 * t3));
    lemma_mul_is_associative(t1, 2, k3);
    lemma_mul_is_commutative(t1, 2);
    lemma_mul_is_associative(2, t1, k3);
    lemma_mixed_regrouped(t1, t3, w);
}

proof fn lemma_mixed_regrouped(t1: int, t3: int, w: int)
    ensures
        t1 * (w * (t3 * t3)) == (w * (t1 * t3)) * t3,
{
    broadcast use {lemma_mul_is_associative, lemma_mul_is_commutative};

}

proof fn lemma_mixed_products(t1: int, t3: int, pq: int, ab: int, c: int)
    ensures
        t1 * (pq - ab) - t3 * (pq + ab) == pq * (t1 - t3) - ab * (t1 + t3),
        t1 * (pq - ab) + t3 * (pq + ab) == pq * (t1 + t3) - ab * (t1 - t3),
        c * (t1 - t3) == c * t1 - c * t3,
        c * (t1 + t3) == c * t1 + c * t3,
{
    broadcast use group_ring;

}

/// The relations between the outer points, with the amounts by which they fail.
pub proof fn lemma_outer_relations(dd: int, t1: int, t3: int, e1: int, e3: int)
    ensures
        ({
            let c1 = 1 + dd * (t1 * t1) + e1;
            let c3 = 1 + dd * (t3 * t3) + e3;
            let e = dd * (t1 * t3);
            &&& t1 * c3 - t3 * c1 == (t1 - t3) * (1 - e) + (t1 * e3 - t3 * e1)
            &&& t1 * c3 + t3 * c1 == (t1 + t3) * (1 + e) + (t1 * e3 + t3 * e1)
        }),
{
    let e: int = dd * (t1 * t3);
    lemma_mixed_regrouped(t1, t3, dd);
    lemma_mixed_regrouped(t3, t1, dd);
    lemma_mul_is_commutative(t1, t3);
    lemma_outer_distributed(t1, dd * (t3 * t3), e3);
    lemma_outer_distributed(t3, dd * (t1 * t1), e1);
    assert((t1 - t3) * (1 - e) == t1 - t3 - e * t1 + e * t3) by {
        broadcast use group_ring;

    }
    assert((t1 + t3) * (1 + e) == t1 + t3 + e * t1 + e * t3) by {
        broadcast use group_ring;

    }
}

proof fn lemma_outer_distributed(t: int, m: int, e: int)
    ensures
        t * (1 + m + e) == t + t * m + t * e,
{
    broadcast use group_ring;

}

/// Negations that turn one coefficient of the associativity identity into the other.
pub proof fn lemma_negated_terms(u: int, v: int, e: int, ta: int, w: int, s: int, be: int, m: int)
    ensures
        -u * (1 + e) == -(u * (1 + e)),
        -v * (1 - e) == -(v * (1 - e)),
        -v * -u == u * v,
        -e * -s == e * s,
        -ta * -u == ta * u,
        w * (w * -ta) == -(w * (w * ta)),
        -e * m == -(e * m),
{
    lemma_mul_unary_negation(u, 1 + e);
    lemma_mul_unary_negation(v, 1 - e);
    lemma_mul_cancels_negatives(v, u);
    lemma_mul_is_commutative(u, v);
    lemma_mul_cancels_negatives(e, s);
    lemma_mul_cancels_negatives(ta, u);
    lemma_mul_unary_negation(w, ta);
    lemma_mul_unary_negation(w, w * ta);
    lemma_mul_unary_negation(e, m);
}

/// A factor passes through a product.
pub proof fn lemma_regrouped(dd: int, t1: int, t2: int, a: int)
    ensures
        (dd * (t1 * t2)) * a == (dd * t2) * (t1 * a),
{
    broadcast use {lemma_mul_is_associative, lemma_mul_is_commutative};

}

/// The product of the squared middle terms, regrouped.
pub proof fn lemma_squares_regrouped(dd: int, t2: int, ta: int)
    ensures
        (dd * t2) * ((dd * t2) * ta) == (dd * ta) * (dd * (t2 * t2)),
{
    broadcast use {lemma_mul_is_associative, lemma_mul_is_commutative};

}

/// Two quotients `x = n / m` and `xx = nn / mm`, cross-multiplied.
pub proof fn lemma_quotients_compared(x: int, xx: int, n: int, m: int, nn: int, mm: int)
    ensures
        mm * (x * m - n) + (-m) * (xx * mm - nn) + (n * mm - nn * m) == (x - xx) * (m * mm),
{
    lemma_mul_unary_negation(m, xx * mm - nn);
    lemma_quotients_expanded(x, xx, n, m, nn, mm);
}

proof fn lemma_quotients_expanded(x: int, xx: int, n: int, m: int, nn: int, mm: int)
    ensures
        mm * (x * m - n) - m * (xx * mm - nn) + (n * mm - nn * m) == (x - xx) * (m * mm),
{
    broadcast use group_ring;

}

/// The curve equation of a turned point.
pub proof fn lemma_turned_defect(i: int, x: int, y: int)
    ensures
        (i * x) * (i * x) - (i * y) * (i * y) == (y * y - x * x) + (i * i + 1) * (x * x - y * y),
        ((i * y) * (i * x)) * ((i * y) * (i * x)) == (x * y) * (x * y) + ((i * i + 1) * (i * i
            - 1)) * ((
        x * y) * (x * y)),
{
    let q: int = i * i;
    lemma_square_of_product(i, x);
    lemma_square_of_product(i, y);
    lemma_turned_squares(q, x * x, y * y);
    lemma_two_products(i, i, y, x);
    lemma_mul_is_commutative(i, x);
    lemma_mul_is_commutative(i, y);
    lemma_mul_is_commutative(x, y);
    lemma_square_of_product(q, x * y);
    let k: int = (x * y) * (x * y);
    lemma_plus_minus_one(q);
    lemma_mul_is_distributive_sub_other_way(k, q * q, 1);
    lemma_mul_basics(k);
}

proof fn lemma_turned_squares(q: int, x: int, y: int)
    ensures
        (q + 1) * (x - y) == q * x - q * y + x - y,
{
    broadcast use group_ring;

}

proof fn lemma_plus_minus_one(q: int)
    ensures
        (q + 1) * (q - 1) == q * q - 1,
{
    broadcast use group_ring;

}

/// The cross product with a turned point.
pub proof fn lemma_turned_cross(i: int, dd: int, x: int, y: int, t: int)
    ensures
        dd * (((i * y) * (i * x)) * t) == (i * i + 1) * (dd * ((x * y) * t)) - dd * ((x * y) * t),
{
    lemma_two_products(i, i, y, x);
    lemma_mul_is_commutative(i, x);
    lemma_mul_is_commutative(i, y);
    lemma_mul_is_commutative(x, y);
    let q: int = i * i;
    lemma_mul_is_associative(q, x * y, t);
    lemma_mul_is_associative(dd, q, (x * y) * t);
    lemma_mul_is_commutative(dd, q);
    lemma_mul_is_associative(q, dd, (x * y) * t);
    lemma_mul_is_distributive_add_other_way(dd * ((x * y) * t), q, 1);
    lemma_mul_basics(dd * ((x * y) * t));
}

/// A coordinate of a sum with a turned point.
pub proof fn lemma_turned_coordinate(i: int, y: int, z: int, b: int, r: int)
    ensures
        (i * y) * (1 + (r * z - z)) - i * b == i * (y * (1 - z) - b) + ((i * y) * z) * r,
{
    broadcast use group_ring;

}

/// The sums of the addition law with a turned point.
pub proof fn lemma_turned_sums(i: int, x1: int, y1: int, x2: int, y2: int)
    ensures
        (i * y1) * y2 + x2 * (i * x1) == i * (y1 * y2 + x1 * x2),
        (i * x1) * y2 + (i * y1) * x2 == i * (x1 * y2 + x2 * y1),
{
    broadcast use group_ring;

}

/// A quotient times its denominator, for an approximate inverse `v` of the denominator.
pub proof fn lemma_quotient_scaled(x: int, n: int, v: int, k: int)
    ensures
        k * (x - n * v) + n * (k * v - 1) == x * k - n,
{
    broadcast use group_ring;

}

/// An element times what the others and the inverse of the whole product leave.
pub proof fn lemma_batch(k: int, rest: int, pre: int, z: int)
    ensures
        z * ((k * rest) * pre) == (pre * (z * rest)) * k,
{
    broadcast use {lemma_mul_is_associative, lemma_mul_is_commutative};

}

/// The product of two coordinates over a common denominator.
pub proof fn lemma_fourth(x: int, y: int, z: int)
    ensures
        (x * z) * (y * z) == ((x * y) * z) * z,
{
    broadcast use {lemma_mul_is_associative, lemma_mul_is_commutative};

}

/// The sums and differences of the addition formulas, over common denominators.
pub proof fn lemma_projective_sums(x1: int, y1: int, z1: int, x2: int, y2: int, z2: int)
    ensures
        ({
            let (u1, v1, u2, v2) = (x1 * z1, y1 * z1, x2 * z2, y2 * z2);
            let a = (v1 - u1) * (v2 - u2);
            let b = (v1 + u1) * (v2 + u2);
            &&& b - a == (x1 * y2 + x2 * y1) * (2 * (z1 * z2))
            &&& b + a == (y1 * y2 + x1 * x2) * (2 * (z1 * z2))
        }),
{
    let (u1, v1, u2, v2): (int, int, int, int) = (x1 * z1, y1 * z1, x2 * z2, y2 * z2);
    lemma_four_products(u1, v1, u2, v2);
    lemma_two_products(x1, y2, z1, z2);
    lemma_projective_product(x1, z1, y2, z2);
    lemma_projective_product(x2, z2, y1, z1);
    lemma_projective_product(y1, z1, y2, z2);
    lemma_projective_product(x1, z1, x2, z2);
    lemma_mul_is_commutative(z1, z2);
    lemma_mul_is_commutative(u2, v1);
    let k: int = z1 * z2;
    lemma_doubled_sum(x1 * y2, x2 * y1, k);
    lemma_doubled_sum(y1 * y2, x1 * x2, k);
}

proof fn lemma_four_products(u1: int, v1: int, u2: int, v2: int)
    ensures
        (v1 + u1) * (v2 + u2) - (v1 - u1) * (v2 - u2) == 2 * (u1 * v2) + 2 * (v1 * u2),
        (v1 + u1) * (v2 + u2) + (v1 - u1) * (v2 - u2) == 2 * (v1 * v2) + 2 * (u1 * u2),
{
    broadcast use group_ring;

}

proof fn lemma_projective_product(x: int, z: int, y: int, w: int)
    ensures
        (x * z) * (y * w) == (x * y) * (z * w),
{
    broadcast use {lemma_mul_is_associative, lemma_mul_is_commutative};

}

proof fn lemma_doubled_sum(a: int, b: int, k: int)
    ensures
        (a + b) * (2 * k) == 2 * (a * k) + 2 * (b * k),
{
    broadcast use group_ring;

}

/// Exchanging two denominators over a common factor.
pub proof fn lemma_swapped(u: int, w: int, k: int)
    ensures
        (u * k) * (w * k) == (w * k) * (u * k),
{
    lemma_mul_is_commutative(u * k, w * k);
}

/// The products that the four coordinates of a sum are made of.
pub proof fn lemma_fourth_product(e: int, f: int, g: int, h: int)
    ensures
        (e * h) * (f * g) == (e * f) * (g * h),
{
    broadcast use {lemma_mul_is_associative, lemma_mul_is_commutative};

}

/// A numerator over its denominator, scaled.
pub proof fn lemma_sum_scaled(x: int, w: int, n: int, u: int, k: int)
    ensures
        (k * (u * k)) * (x * w - n) == x * ((u * k) * (w * k)) - (n * k) * (u * k),
{
    let c: int = u * k;
    lemma_mul_is_distributive_sub(k * c, x * w, n);
    lemma_sum_regrouped(x, w, c, k);
    lemma_relation_regrouped(c, k, n);
    lemma_mul_is_commutative(k, n);
}

proof fn lemma_sum_regrouped(x: int, w: int, c: int, k: int)
    ensures
        (k * c) * (x * w) == x * (c * (w * k)),
{
    broadcast use {lemma_mul_is_associative, lemma_mul_is_commutative};

}

/// The third term of the addition formulas, regrouped.
pub proof fn lemma_cross_regrouped(q1: int, q2: int, z1: int, z2: int, d: int)
    ensures
        ((q1 * z1) * (q2 * z2)) * (2 * d) == (d * (q1 * q2)) * (2 * (z1 * z2)),
{
    lemma_projective_product(q1, z1, q2, z2);
    lemma_regrouped_twice(q1 * q2, z1 * z2, d);
}

proof fn lemma_regrouped_twice(q: int, k: int, d: int)
    ensures
        (q * k) * (2 * d) == (d * q) * (2 * k),
{
    broadcast use {lemma_mul_is_associative, lemma_mul_is_commutative};

}

} // verus!
