//! The twisted Edwards curve `-x^2 + y^2 = 1 + d x^2 y^2` over the field of the prime
//! `2^255 - 19`, and its group law.
//!
//! Lemmas on the law are stated of arbitrary integer coordinates; [`Point`] holds reduced ones.
use vstd::arithmetic::mul::*;
use vstd::prelude::*;

use crate::fp;
use crate::modular;
use crate::prime25519;
use crate::ring;

verus! {

/// The constant of the curve equation, `-121665 / 121666` modulo the field prime.
pub open spec fn d() -> int {
    37095705934669439343138083508754565189542113879843219016388785533085940283555int
}

/// How far a pair of coordinates is from satisfying the curve equation.
pub open spec fn defect(x: int, y: int) -> int {
    y * y - x * x - 1 - d() * ((x * y) * (x * y))
}

/// The coordinates satisfy the curve equation.
pub open spec fn on_curve(x: int, y: int) -> bool {
    fp::vanishes(defect(x, y))
}

/// The product that the denominators of the addition law are one plus and one minus.
pub open spec fn cross(x1: int, y1: int, x2: int, y2: int) -> int {
    d() * ((x1 * y1) * (x2 * y2))
}

/// The third pair of coordinates is the sum of the first two by the addition law
/// `x3 = (x1 y2 + x2 y1) / (1 + d x1 x2 y1 y2)`,
/// `y3 = (y1 y2 + x1 x2) / (1 - d x1 x2 y1 y2)`.
pub open spec fn adds_to(x1: int, y1: int, x2: int, y2: int, x3: int, y3: int) -> bool {
    &&& fp::vanishes(x3 * (1 + cross(x1, y1, x2, y2)) - (x1 * y2 + x2 * y1))
    &&& fp::vanishes(y3 * (1 - cross(x1, y1, x2, y2)) - (y1 * y2 + x1 * x2))
}

/// A square root of minus one.
pub open spec fn root() -> int {
    19681161376707505956807079304988542015446066515923890162744021073123829784752int
}

proof fn lemma_root()
    ensures
        fp::vanishes(root() * root() + 1),
        !fp::vanishes(root()),
{
    reveal(fp::vanishes);
    fp::lemma_small_nonzero(root());
}

/// The step of [`lemma_complete`]: with a denominator of zero, the curve constant times one
/// square is another.
proof fn lemma_complete_step(x1: int, y1: int, x2: int, y2: int, e: int)
    requires
        on_curve(x1, y1),
        on_curve(x2, y2),
        e * e == 1,
        fp::vanishes(e - cross(x1, y1, x2, y2)),
    ensures
        ({
            let f = root() * x1 + e * y1;
            let c = (x1 * y1) * (root() * x2 + y2);
            fp::vanishes(f * f - d() * (c * c))
        }),
{
    let i: int = root();
    let d: int = d();
    let t1: int = x1 * y1;
    let t2: int = x2 * y2;
    let f: int = i * x1 + e * y1;
    let g: int = i * x2 + y2;
    let r: int = i * i + 1;
    let e1: int = defect(x1, y1);
    let e2: int = defect(x2, y2);
    let del: int = cross(x1, y1, x2, y2);
    lemma_root();
    ring::lemma_square_of_root(i, x1, y1, e);
    ring::lemma_square_of_root(i, x2, y2, 1);
    lemma_mul_basics(y2);
    lemma_mul_basics(i * x2);
    lemma_mul_basics(1int);
    let h1: int = r * (x1 * x1) + e1;
    let h2: int = r * (x2 * x2) + e2;
    assert(f * f == h1 + 1 + d * (t1 * t1) + 2 * (e * (i * t1)));
    assert(g * g == h2 + 1 + d * (t2 * t2) + 2 * (i * t2));
    fp::lemma_vanishes_mul(x1 * x1, r);
    fp::lemma_vanishes_add(r * (x1 * x1), e1);
    fp::lemma_vanishes_mul(x2 * x2, r);
    fp::lemma_vanishes_add(r * (x2 * x2), e2);
    ring::lemma_square_quotient(d, t1, t2, i, h2, g * g);
    lemma_mul_is_associative(t1 * t1, g, g);
    ring::lemma_square_of_product(t1, g);
    ring::lemma_unit_square(e, del, i * t1);
    fp::lemma_vanishes_mul(e + del + 2 * (i * t1), e - del);
    fp::lemma_vanishes_mul(d * (t1 * t1), h2);
    fp::lemma_vanishes_add(h1, (e - del) * (e + del + 2 * (i * t1)));
    fp::lemma_vanishes_add(h1 + (e - del) * (e + del + 2 * (i * t1)), (d * (t1 * t1)) * h2);
    let c: int = t1 * g;
    assert(f * f - d * (c * c) == h1 + (e - del) * (e + del + 2 * (i * t1)) - (d * (t1 * t1)) * h2);
}

/// The denominators of the addition law never vanish on the curve: the law is complete.
pub proof fn lemma_complete(x1: int, y1: int, x2: int, y2: int)
    requires
        on_curve(x1, y1),
        on_curve(x2, y2),
    ensures
        !fp::vanishes(1 + cross(x1, y1, x2, y2)),
        !fp::vanishes(1 - cross(x1, y1, x2, y2)),
{
    fp::lemma_small_nonzero(1);
    if fp::vanishes(1 + cross(x1, y1, x2, y2)) {
        fp::lemma_vanishes_negate(1 + cross(x1, y1, x2, y2));
        assert(-(1 + cross(x1, y1, x2, y2)) == -1 - cross(x1, y1, x2, y2));
        lemma_complete_contradiction(x1, y1, x2, y2, -1);
    }
    if fp::vanishes(1 - cross(x1, y1, x2, y2)) {
        lemma_complete_contradiction(x1, y1, x2, y2, 1);
    }
}

/// A vanishing denominator would make the curve constant a square.
proof fn lemma_complete_contradiction(x1: int, y1: int, x2: int, y2: int, e: int)
    requires
        on_curve(x1, y1),
        on_curve(x2, y2),
        e == 1 || e == -1,
        fp::vanishes(e - cross(x1, y1, x2, y2)),
    ensures
        fp::vanishes(1),
{
    let i: int = root();
    let d: int = d();
    let t1: int = x1 * y1;
    let del: int = cross(x1, y1, x2, y2);
    // the cross product is a unit, so no coordinate vanishes
    fp::lemma_small_nonzero(1);
    if fp::vanishes(del) {
        fp::lemma_vanishes_add(e - del, del);
        fp::lemma_vanishes_negate(e);
        assert(false);
    }
    if fp::vanishes(t1) {
        fp::lemma_vanishes_mul(x2 * y2, t1);
        fp::lemma_vanishes_mul(d, t1 * (x2 * y2));
        assert(false);
    }
    if fp::vanishes(y2) {
        fp::lemma_vanishes_mul(x2, y2);
        fp::lemma_vanishes_mul(t1, x2 * y2);
        fp::lemma_vanishes_mul(d, t1 * (x2 * y2));
        assert(false);
    }
    lemma_complete_step(x1, y1, x2, y2, e);
    ring::lemma_negated_pair(x1, y1);
    ring::lemma_negated_pair(x2, y2);
    ring::lemma_negated_product(x1 * y1, x2 * y2);
    lemma_complete_step(x1, -y1, x2, -y2, e);
    let g: int = i * x2 + y2;
    let h: int = i * x2 + (-y2);
    if fp::vanishes(g) && fp::vanishes(h) {
        fp::lemma_vanishes_add(g, h);
        assert(g - h == 2 * y2);
        fp::lemma_vanishes_euclid(2, y2);
        fp::lemma_small_nonzero(2);
        assert(false);
    }
    if !fp::vanishes(g) {
        if fp::vanishes(t1 * g) {
            fp::lemma_vanishes_euclid(t1, g);
        }
        lemma_no_square_quotient(i * x1 + e * y1, t1 * g);
    } else {
        if fp::vanishes((x1 * (-y1)) * h) {
            fp::lemma_vanishes_euclid(x1 * (-y1), h);
            fp::lemma_vanishes_negate(x1 * (-y1));
        }
        lemma_no_square_quotient(i * x1 + e * (-y1), (x1 * (-y1)) * h);
    }
}

/// The curve constant is not the quotient of two squares.
proof fn lemma_no_square_quotient(f: int, c: int)
    requires
        !fp::vanishes(c),
    ensures
        !fp::vanishes(f * f - d() * (c * c)),
{
    let d: int = d();
    let k: int = fp::inverse(c);
    let s: int = f * k;
    fp::lemma_inverse(c);
    if fp::vanishes(f * f - d * (c * c)) {
        // s * s - d == (f * f - d * c * c) * k * k + d * (c * k - 1) * (c * k + 1)
        ring::lemma_square_quotient_scaled(f, c, d, k);
        fp::lemma_vanishes_sum2(k * k, f * f - d * (c * c), d * (c * k + 1), c * k - 1);
        fp::lemma_vanishes_difference(s * s, d);
        prime25519::lemma_curve_d_nonsquare(s);
    }
}

/// The cleared curve equation holds of the numerators of a sum.
proof fn lemma_closure_numerators(x1: int, y1: int, x2: int, y2: int)
    requires
        on_curve(x1, y1),
        on_curve(x2, y2),
    ensures
        ({
            let z = cross(x1, y1, x2, y2);
            let a = x1 * y2 + x2 * y1;
            let b = y1 * y2 + x1 * x2;
            let f = 1 + z;
            let g = 1 - z;
            fp::vanishes(
                (b * b) * (f * f) - (a * a) * (g * g) - (f * g) * (f * g) - d() * ((a * b) * (a
                    * b)),
            )
        }),
{
    let z: int = cross(x1, y1, x2, y2);
    let a: int = x1 * y2 + x2 * y1;
    let b: int = y1 * y2 + x1 * x2;
    let t1: int = x1 * y1;
    let t2: int = x2 * y2;
    let s1: int = x1 * x1 + y1 * y1;
    let s2: int = x2 * x2 + y2 * y2;
    let c1: int = y1 * y1 - x1 * x1;
    let c2: int = y2 * y2 - x2 * x2;
    let m1: int = d() * (t1 * t1);
    let m2: int = d() * (t2 * t2);
    let e1: int = defect(x1, y1);
    let e2: int = defect(x2, y2);
    ring::lemma_addition_sums(x1, y1, x2, y2);
    ring::lemma_plus_minus_squares(z, a, b);
    ring::lemma_scaled_square(d(), t1, t2, s1, s2);
    ring::lemma_scaled_product(d(), t1, t2);
    assert(m1 * (s2 * s2) == m1 * (c2 * c2) + 4 * (z * (t1 * t2))) by {
        lemma_mul_is_distributive_add(m1, c2 * c2, 4 * (t2 * t2));
        lemma_mul_is_associative(m1, 4, t2 * t2);
        lemma_mul_is_commutative(m1, 4);
        lemma_mul_is_associative(4, m1, t2 * t2);
    }
    assert(m2 * (s1 * s1) == m2 * (c1 * c1) + 4 * (z * (t1 * t2))) by {
        lemma_mul_is_distributive_add(m2, c1 * c1, 4 * (t1 * t1));
        lemma_mul_is_associative(m2, 4, t1 * t1);
        lemma_mul_is_commutative(m2, 4);
        lemma_mul_is_associative(4, m2, t1 * t1);
    }
    assert(z * (a * a + b * b) == z * (s1 * s2) + 4 * (z * (t1 * t2))) by {
        lemma_mul_is_distributive_add(z, s1 * s2, 4 * (t1 * t2));
        lemma_mul_is_associative(z, 4, t1 * t2);
        lemma_mul_is_commutative(z, 4);
        lemma_mul_is_associative(4, z, t1 * t2);
    }
    let u: int = 1 + m1 * m2;
    ring::lemma_closure_root(m1, m2);
    ring::lemma_closure_difference(m1, m2, u, c1, 1 + m1, c2, 1 + m2);
    assert(c1 - (1 + m1) == e1);
    assert(c2 - (1 + m2) == e2);
    let p1: int = u * c2 - m2 * (c1 + (1 + m1));
    let p2: int = u * (1 + m1) - m1 * (c2 + (1 + m2));
    fp::lemma_vanishes_sum2(p1, e1, p2, e2);
    let f: int = 1 + z;
    let g: int = 1 - z;
    assert((b * b) * (f * f) - (a * a) * (g * g) - (f * g) * (f * g) - d() * ((a * b) * (a * b))
        == p1 * e1 + p2 * e2);
}

/// The sum of two points of the curve is a point of the curve.
pub proof fn lemma_closed(x1: int, y1: int, x2: int, y2: int, x3: int, y3: int)
    requires
        on_curve(x1, y1),
        on_curve(x2, y2),
        adds_to(x1, y1, x2, y2, x3, y3),
    ensures
        on_curve(x3, y3),
{
    let z: int = cross(x1, y1, x2, y2);
    let f: int = 1 + z;
    let g: int = 1 - z;
    let a: int = x1 * y2 + x2 * y1;
    let b: int = y1 * y2 + x1 * x2;
    let r: int = x3 * f - a;
    let s: int = y3 * g - b;
    let e3: int = defect(x3, y3);
    lemma_complete(x1, y1, x2, y2);
    lemma_closure_numerators(x1, y1, x2, y2);
    ring::lemma_cleared_defect(d(), x3, y3, f, g);
    ring::lemma_cleared_difference(d(), a, b, r, s, f * f, g * g);
    let w: int = d() * ((a + r) * (b + s) + a * b);
    fp::lemma_vanishes_mul(a + r, s);
    fp::lemma_vanishes_mul(b, r);
    fp::lemma_vanishes_sum4(
        (f * f) * (2 * b + s),
        s,
        -((g * g) * (2 * a + r)),
        r,
        -w,
        (a + r) * s,
        -w,
        b * r,
    );
    lemma_mul_unary_negation((g * g) * (2 * a + r), r);
    lemma_mul_unary_negation(w, (a + r) * s);
    lemma_mul_unary_negation(w, b * r);
    let q: int = (b * b) * (f * f) - (a * a) * (g * g) - (f * g) * (f * g) - d() * ((a * b)
        * (a * b));
    let k: int = (f * g) * (f * g);
    fp::lemma_vanishes_add(e3 * k - q, q);
    fp::lemma_vanishes_euclid(e3, k);
    if fp::vanishes(k) {
        fp::lemma_vanishes_euclid(f * g, f * g);
        fp::lemma_vanishes_euclid(f, g);
    }
}

/// The numerator of the first coordinate of `(P1 + P2) + P3`.
spec fn triple_numerator(x1: int, y1: int, x2: int, y2: int, x3: int, y3: int) -> int {
    let z = cross(x1, y1, x2, y2);
    ((x1 * y2 + x2 * y1) * (1 - z)) * y3 + ((y1 * y2 + x1 * x2) * (1 + z)) * x3
}

/// The denominator of the first coordinate of `(P1 + P2) + P3`.
spec fn triple_denominator(x1: int, y1: int, x2: int, y2: int, x3: int, y3: int) -> int {
    let z = cross(x1, y1, x2, y2);
    (1 - z * z) + d() * (((x1 * y2 + x2 * y1) * (y1 * y2 + x1 * x2)) * (x3 * y3))
}

/// The first coordinate of `(P1 + P2) + P3` is the quotient of the two.
proof fn lemma_triple(
    x1: int,
    y1: int,
    x2: int,
    y2: int,
    x3: int,
    y3: int,
    x12: int,
    y12: int,
    x: int,
    y: int,
)
    requires
        on_curve(x1, y1),
        on_curve(x2, y2),
        on_curve(x3, y3),
        adds_to(x1, y1, x2, y2, x12, y12),
        adds_to(x12, y12, x3, y3, x, y),
    ensures
        !fp::vanishes(triple_denominator(x1, y1, x2, y2, x3, y3)),
        fp::vanishes(
            x * triple_denominator(x1, y1, x2, y2, x3, y3) - triple_numerator(
                x1,
                y1,
                x2,
                y2,
                x3,
                y3,
            ),
        ),
{
    let z: int = cross(x1, y1, x2, y2);
    let zz: int = cross(x12, y12, x3, y3);
    let f: int = 1 + z;
    let g: int = 1 - z;
    let a: int = x1 * y2 + x2 * y1;
    let b: int = y1 * y2 + x1 * x2;
    let t3: int = x3 * y3;
    let r: int = x12 * f - a;
    let s: int = y12 * g - b;
    let den: int = triple_denominator(x1, y1, x2, y2, x3, y3);
    let num: int = triple_numerator(x1, y1, x2, y2, x3, y3);
    lemma_closed(x1, y1, x2, y2, x12, y12);
    lemma_complete(x1, y1, x2, y2);
    lemma_complete(x12, y12, x3, y3);
    ring::lemma_plus_minus_squares(z, a, b);
    ring::lemma_two_denominators(f, g, d(), x12, y12, t3);
    ring::lemma_product_difference(a, b, r, s);
    let full: int = (a + r) * (b + s);
    let dden: int = (f * g) * (1 + zz) - den;
    assert(dden == d() * ((full - a * b) * t3)) by {
        lemma_mul_is_distributive_sub_other_way(t3, full, a * b);
        lemma_mul_is_distributive_sub(d(), full * t3, (a * b) * t3);
    }
    fp::lemma_vanishes_sum2(a + r, s, b, r);
    fp::lemma_vanishes_mul(t3, full - a * b);
    fp::lemma_vanishes_mul(d(), (full - a * b) * t3);
    if fp::vanishes(den) {
        fp::lemma_vanishes_add(dden, den);
        fp::lemma_vanishes_euclid(f * g, 1 + zz);
        fp::lemma_vanishes_euclid(f, g);
    }
    ring::lemma_two_numerators(f, g, x12, y12, x3, y3);
    let dnum: int = (f * g) * (x12 * y3 + x3 * y12) - num;
    assert(dnum == (r * g) * y3 + (s * f) * x3) by {
        lemma_mul_is_distributive_add_other_way(g, a, r);
        lemma_mul_is_distributive_add_other_way(y3, a * g, r * g);
        lemma_mul_is_distributive_add_other_way(f, b, s);
        lemma_mul_is_distributive_add_other_way(x3, b * f, s * f);
    }
    fp::lemma_vanishes_mul(g, r);
    fp::lemma_vanishes_mul(y3, r * g);
    fp::lemma_vanishes_mul(f, s);
    fp::lemma_vanishes_mul(x3, s * f);
    fp::lemma_vanishes_add((r * g) * y3, (s * f) * x3);
    let rest: int = x * (1 + zz) - (x12 * y3 + x3 * y12);
    fp::lemma_vanishes_mul(f * g, rest);
    fp::lemma_vanishes_mul(x, dden);
    fp::lemma_vanishes_add((f * g) * rest, x * dden);
    fp::lemma_vanishes_add((f * g) * rest - x * dden, dnum);
    assert(x * den - num == (f * g) * rest - x * dden + dnum) by {
        lemma_mul_is_distributive_sub(f * g, x * (1 + zz), x12 * y3 + x3 * y12);
        lemma_mul_is_associative(f * g, x, 1 + zz);
        lemma_mul_is_commutative(f * g, x);
        lemma_mul_is_associative(x, f * g, 1 + zz);
        lemma_mul_is_distributive_sub(x, (f * g) * (1 + zz), den);
    }
}

/// The relations between the products of the outer points' coordinates.
proof fn lemma_outer(x1: int, y1: int, x3: int, y3: int)
    requires
        on_curve(x1, y1),
        on_curve(x3, y3),
    ensures
        ({
            let t1 = x1 * y1;
            let t3 = x3 * y3;
            let e = d() * (t1 * t3);
            &&& fp::vanishes((x1 * x3 + y1 * y3) * (x1 * y3 - x3 * y1) - (t1 - t3) * (1 - e))
            &&& fp::vanishes((x1 * y3 + x3 * y1) * (x1 * x3 - y1 * y3) + (t1 + t3) * (1 + e))
        }),
{
    let t1: int = x1 * y1;
    let t3: int = x3 * y3;
    let e: int = d() * (t1 * t3);
    let e1: int = defect(x1, y1);
    let e3: int = defect(x3, y3);
    ring::lemma_triple_products(x1, y1, x3, y3);
    ring::lemma_outer_relations(d(), t1, t3, e1, e3);
    assert(y1 * y1 - x1 * x1 == 1 + d() * (t1 * t1) + e1);
    assert(y3 * y3 - x3 * x3 == 1 + d() * (t3 * t3) + e3);
    fp::lemma_vanishes_mul(t1, e3);
    fp::lemma_vanishes_mul(t3, e1);
    fp::lemma_vanishes_add(t1 * e3, t3 * e1);
    fp::lemma_vanishes_negate(t1 * e3 + t3 * e1);
}

/// The cross-multiplied quotients of `(P1 + P2) + P3` and `(P3 + P2) + P1` are equal.
proof fn lemma_triple_symmetric(x1: int, y1: int, x2: int, y2: int, x3: int, y3: int)
    requires
        on_curve(x1, y1),
        on_curve(x2, y2),
        on_curve(x3, y3),
    ensures
        fp::vanishes(
            triple_numerator(x1, y1, x2, y2, x3, y3) * triple_denominator(x3, y3, x2, y2, x1, y1)
                - triple_numerator(x3, y3, x2, y2, x1, y1) * triple_denominator(x1, y1, x2, y2,
                    x3, y3),
        ),
{
    let pp: int = x1 * x3 + y1 * y3;
    let qq: int = x1 * y3 + x3 * y1;
    let al: int = x1 * x3 - y1 * y3;
    let be: int = x1 * y3 - x3 * y1;
    let t1: int = x1 * y1;
    let t2: int = x2 * y2;
    let t3: int = x3 * y3;
    let s1: int = x1 * x1 + y1 * y1;
    let s2: int = x2 * x2 + y2 * y2;
    let s3: int = x3 * x3 + y3 * y3;
    let w: int = d() * t2;
    let s: int = x2 * pp + y2 * qq;
    let g: int = 1 + (d() * (t1 * t3)) * s2;
    let a1: int = x2 * al - y2 * be;
    let a3: int = x2 * al + y2 * be;
    let v1: int = t3 * s1 - w * (t1 * t1);
    let v3: int = t1 * s3 - w * (t3 * t3);
    let k: int = s * (v3 - v1) + g * (t1 * a1 - t3 * a3) + w * ((t1 * a1) * v3 - (t3 * a3) * v1);
    assert(triple_numerator(x1, y1, x2, y2, x3, y3) == s + w * (t1 * a1)) by {
        ring::lemma_triple_numerator(x1, y1, x2, y2, x3, y3, cross(x1, y1, x2, y2));
        ring::lemma_regrouped(d(), t1, t2, a1);
    }
    assert(triple_numerator(x3, y3, x2, y2, x1, y1) == s + w * (t3 * a3)) by {
        ring::lemma_triple_numerator(x3, y3, x2, y2, x1, y1, cross(x3, y3, x2, y2));
        lemma_mul_is_commutative(x1, x3);
        lemma_mul_is_commutative(y1, y3);
        assert(x3 * y1 - x1 * y3 == -be);
        lemma_mul_unary_negation(y2, be);
        ring::lemma_regrouped(d(), t3, t2, a3);
    }
    assert(triple_denominator(x1, y1, x2, y2, x3, y3) == g + w * v1) by {
        ring::lemma_addition_sums(x1, y1, x2, y2);
        ring::lemma_triple_denominator(d(), t1, t2, t3, s1, s2);
    }
    assert(triple_denominator(x3, y3, x2, y2, x1, y1) == g + w * v3) by {
        ring::lemma_addition_sums(x3, y3, x2, y2);
        ring::lemma_triple_denominator(d(), t3, t2, t1, s3, s2);
        lemma_mul_is_commutative(t1, t3);
    }
    ring::lemma_cross_multiplied(s, g, w, t1 * a1, t3 * a3, v1, v3);
    lemma_triple_core(x1, y1, x2, y2, x3, y3);
    fp::lemma_vanishes_euclid(2, k);
    fp::lemma_small_nonzero(2);
    fp::lemma_vanishes_mul(w, k);
}

/// Twice the difference of the cross-multiplied quotients, up to a factor.
proof fn lemma_triple_core(x1: int, y1: int, x2: int, y2: int, x3: int, y3: int)
    requires
        on_curve(x1, y1),
        on_curve(x2, y2),
        on_curve(x3, y3),
    ensures
        ({
            let t1 = x1 * y1;
            let t2 = x2 * y2;
            let t3 = x3 * y3;
            let s1 = x1 * x1 + y1 * y1;
            let s2 = x2 * x2 + y2 * y2;
            let s3 = x3 * x3 + y3 * y3;
            let w = d() * t2;
            let al = x1 * x3 - y1 * y3;
            let be = x1 * y3 - x3 * y1;
            let s = x2 * (x1 * x3 + y1 * y3) + y2 * (x1 * y3 + x3 * y1);
            let g = 1 + (d() * (t1 * t3)) * s2;
            let a1 = x2 * al - y2 * be;
            let a3 = x2 * al + y2 * be;
            let v1 = t3 * s1 - w * (t1 * t1);
            let v3 = t1 * s3 - w * (t3 * t3);
            fp::vanishes(
                2 * (s * (v3 - v1) + g * (t1 * a1 - t3 * a3) + w * ((t1 * a1) * v3 - (t3 * a3)
                    * v1)),
            )
        }),
{
    let pp: int = x1 * x3 + y1 * y3;
    let qq: int = x1 * y3 + x3 * y1;
    let al: int = x1 * x3 - y1 * y3;
    let be: int = x1 * y3 - x3 * y1;
    let t1: int = x1 * y1;
    let t2: int = x2 * y2;
    let t3: int = x3 * y3;
    let s1: int = x1 * x1 + y1 * y1;
    let s2: int = x2 * x2 + y2 * y2;
    let s3: int = x3 * x3 + y3 * y3;
    let w: int = d() * t2;
    let ta: int = t1 * t3;
    let e: int = d() * ta;
    let u: int = t1 + t3;
    let v: int = t1 - t3;
    let m: int = d() * (t2 * t2);
    let g: int = 1 + e * s2;
    let v1: int = t3 * s1 - w * (t1 * t1);
    let v3: int = t1 * s3 - w * (t3 * t3);
    let r1: int = pp * be - v * (1 - e);
    let r2: int = qq * al + u * (1 + e);
    let r5: int = 1 + s2 + m - 2 * (y2 * y2);
    ring::lemma_triple_products(x1, y1, x3, y3);
    lemma_outer(x1, y1, x3, y3);
    fp::lemma_vanishes_negate(defect(x2, y2));
    assert(r5 == -defect(x2, y2));
    // the difference, as a combination of the coordinates of the middle point
    let dv: int = w * (u * v) - al * be;
    ring::lemma_denominator_difference(w, t1, t3, s1, s3, al * be);
    ring::lemma_numerator_difference(t1, t3, x2 * al, y2 * be);
    ring::lemma_mixed_difference(
        t1,
        t3,
        x2 * al,
        y2 * be,
        w,
        t3 * s1,
        t1 * s3,
        pp * qq,
        al * be,
    );
    let mm: int = (pp * qq) * v - (al * be) * u + 2 * (w * (ta * v));
    let nn: int = (pp * qq) * u - (al * be) * v - 2 * (w * (ta * u));
    let da: int = t1 * (x2 * al - y2 * be) - t3 * (x2 * al + y2 * be);
    let dav: int = (t1 * (x2 * al - y2 * be)) * v3 - (t3 * (x2 * al + y2 * be)) * v1;
    ring::lemma_difference_split(x2, y2, pp, qq, al, be, u, v, w, g, dv, da, dav, mm, nn);
    // the coefficient of its first coordinate
    ring::lemma_squares_regrouped(d(), t2, ta);
    ring::lemma_coefficient(
        pp,
        qq,
        al,
        be,
        u,
        v,
        w,
        e,
        ta,
        s2,
        m,
        r1,
        r2,
        r5,
        4 * ta,
        y2 * y2,
    );
    let l1: int = 4 * ((al * (v * e)) * (y2 * y2)) + (w * (4 * ta)) * (u * be);
    let c1: int = 2 * (pp * dv) + 2 * (g * (al * v)) + (w * al) * mm;
    fp::lemma_vanishes_sum3(
        -2 * al - w * (u * pp),
        r1,
        w * (pp * v),
        r2,
        2 * (al * (v * e)),
        r5,
    );
    assert(fp::vanishes(c1 - l1));
    // and of its second, by the symmetry that exchanges the roles of the relations
    ring::lemma_negated_terms(u, v, e, ta, w, s2, be, m);
    lemma_mul_is_commutative(al, be);
    lemma_mul_is_commutative(pp, qq);
    lemma_mul_unary_negation(pp * qq, u);
    lemma_mul_unary_negation(al * be, v);
    ring::lemma_coefficient(
        qq,
        pp,
        be,
        al,
        -v,
        -u,
        w,
        -e,
        -ta,
        -s2,
        m,
        r2,
        r1,
        r5,
        4 * ta,
        -(x2 * x2),
    );
    let l2: int = 4 * ((be * (-u * -e)) * -(x2 * x2)) + (w * (4 * ta)) * (-v * al);
    let c2: int = 2 * (qq * dv) + 2 * (g * (be * -u)) + (w * be) * -nn;
    fp::lemma_vanishes_sum3(
        -2 * be - w * (-v * qq),
        r2,
        w * (qq * -u),
        r1,
        2 * (be * (-u * -e)),
        r5,
    );
    assert(fp::vanishes(c2 - l2));
    fp::lemma_vanishes_sum2(x2, c1 - l1, y2, c2 - l2);
    ring::lemma_regrouped(d(), ta, t2, 1);
    lemma_mul_basics(w * ta);
    lemma_mul_basics(ta);
    lemma_mul_basics(d() * (ta * t2));
    lemma_mul_is_associative(d(), ta, t2);
    ring::lemma_coefficients_cancel(x2, y2, al, be, u, v, e, w, ta);
    lemma_mul_is_distributive_sub(x2, c1, l1);
    lemma_mul_is_distributive_sub(y2, c2, l2);
}

/// The first coordinates of `(P1 + P2) + P3` and `P1 + (P2 + P3)` agree.
proof fn lemma_associative_first(
    x1: int,
    y1: int,
    x2: int,
    y2: int,
    x3: int,
    y3: int,
    x12: int,
    y12: int,
    x23: int,
    y23: int,
    x: int,
    y: int,
    xx: int,
    yy: int,
)
    requires
        on_curve(x1, y1),
        on_curve(x2, y2),
        on_curve(x3, y3),
        adds_to(x1, y1, x2, y2, x12, y12),
        adds_to(x12, y12, x3, y3, x, y),
        adds_to(x2, y2, x3, y3, x23, y23),
        adds_to(x1, y1, x23, y23, xx, yy),
    ensures
        fp::vanishes(x - xx),
{
    lemma_adds_commutes(x2, y2, x3, y3, x23, y23);
    lemma_adds_commutes(x1, y1, x23, y23, xx, yy);
    lemma_triple(x1, y1, x2, y2, x3, y3, x12, y12, x, y);
    lemma_triple(x3, y3, x2, y2, x1, y1, x23, y23, xx, yy);
    lemma_triple_symmetric(x1, y1, x2, y2, x3, y3);
    let n: int = triple_numerator(x1, y1, x2, y2, x3, y3);
    let m: int = triple_denominator(x1, y1, x2, y2, x3, y3);
    let nn: int = triple_numerator(x3, y3, x2, y2, x1, y1);
    let mm: int = triple_denominator(x3, y3, x2, y2, x1, y1);
    fp::lemma_vanishes_sum2(mm, x * m - n, -m, xx * mm - nn);
    fp::lemma_vanishes_add(mm * (x * m - n) + (-m) * (xx * mm - nn), n * mm - nn * m);
    ring::lemma_quotients_compared(x, xx, n, m, nn, mm);
    fp::lemma_vanishes_euclid(x - xx, m * mm);
    if fp::vanishes(m * mm) {
        fp::lemma_vanishes_euclid(m, mm);
    }
}

/// The addition law is commutative.
pub proof fn lemma_adds_commutes(x1: int, y1: int, x2: int, y2: int, x3: int, y3: int)
    requires
        adds_to(x1, y1, x2, y2, x3, y3),
    ensures
        adds_to(x2, y2, x1, y1, x3, y3),
{
    lemma_mul_is_commutative(x1 * y1, x2 * y2);
    lemma_mul_is_commutative(y1, y2);
    lemma_mul_is_commutative(x1, x2);
}

/// Turning a point of the curve by a quarter exchanges its coordinates, up to a root of minus
/// one.
proof fn lemma_turned_on_curve(x: int, y: int)
    requires
        on_curve(x, y),
    ensures
        on_curve(root() * y, root() * x),
{
    let i: int = root();
    let r: int = i * i + 1;
    lemma_root();
    ring::lemma_turned_defect(i, x, y);
    let q: int = r * (x * x - y * y) - (d() * ((r * (i * i - 1)) * ((x * y) * (x * y))));
    fp::lemma_vanishes_mul(x * x - y * y, r);
    fp::lemma_vanishes_mul(i * i - 1, r);
    fp::lemma_vanishes_mul((x * y) * (x * y), r * (i * i - 1));
    fp::lemma_vanishes_mul(d(), (r * (i * i - 1)) * ((x * y) * (x * y)));
    fp::lemma_vanishes_add(
        r * (x * x - y * y),
        d() * ((r * (i * i - 1)) * ((x * y) * (x * y))),
    );
    fp::lemma_vanishes_add(defect(x, y), q);
    let k: int = (x * y) * (x * y);
    lemma_mul_is_distributive_add(d(), k, (r * (i * i - 1)) * k);
}

/// Turning one summand turns the sum.
proof fn lemma_turned_sum(x1: int, y1: int, x2: int, y2: int, x3: int, y3: int)
    requires
        adds_to(x1, y1, x2, y2, x3, y3),
    ensures
        adds_to(root() * y1, root() * x1, x2, y2, root() * y3, root() * x3),
{
    let i: int = root();
    let z: int = cross(x1, y1, x2, y2);
    let zz: int = cross(i * y1, i * x1, x2, y2);
    let r: int = i * i + 1;
    lemma_root();
    ring::lemma_turned_cross(i, d(), x1, y1, x2 * y2);
    assert(zz == r * z - z);
    let a: int = x1 * y2 + x2 * y1;
    let b: int = y1 * y2 + x1 * x2;
    ring::lemma_turned_sums(i, x1, y1, x2, y2);
    ring::lemma_turned_coordinate(i, y3, z, b, r);
    fp::lemma_vanishes_mul(i, y3 * (1 - z) - b);
    fp::lemma_vanishes_mul((i * y3) * z, r);
    fp::lemma_vanishes_add(i * (y3 * (1 - z) - b), ((i * y3) * z) * r);
    ring::lemma_turned_coordinate(i, x3, -z, a, r);
    lemma_mul_unary_negation(r, z);
    assert(1 + (r * -z - -z) == 1 - zz);
    fp::lemma_vanishes_mul(i, x3 * (1 + z) - a);
    fp::lemma_vanishes_mul((i * x3) * -z, r);
    fp::lemma_vanishes_add(i * (x3 * (1 + z) - a), ((i * x3) * -z) * r);
    assert(1 - -z == 1 + z);
}

/// The addition law is associative.
pub proof fn lemma_adds_associates(
    x1: int,
    y1: int,
    x2: int,
    y2: int,
    x3: int,
    y3: int,
    x12: int,
    y12: int,
    x23: int,
    y23: int,
    x: int,
    y: int,
    xx: int,
    yy: int,
)
    requires
        on_curve(x1, y1),
        on_curve(x2, y2),
        on_curve(x3, y3),
        adds_to(x1, y1, x2, y2, x12, y12),
        adds_to(x12, y12, x3, y3, x, y),
        adds_to(x2, y2, x3, y3, x23, y23),
        adds_to(x1, y1, x23, y23, xx, yy),
    ensures
        fp::vanishes(x - xx),
        fp::vanishes(y - yy),
{
    let i: int = root();
    lemma_associative_first(x1, y1, x2, y2, x3, y3, x12, y12, x23, y23, x, y, xx, yy);
    lemma_turned_on_curve(x1, y1);
    lemma_turned_sum(x1, y1, x2, y2, x12, y12);
    lemma_turned_sum(x12, y12, x3, y3, x, y);
    lemma_turned_sum(x1, y1, x23, y23, xx, yy);
    lemma_associative_first(
        i * y1,
        i * x1,
        x2,
        y2,
        x3,
        y3,
        i * y12,
        i * x12,
        x23,
        y23,
        i * y,
        i * x,
        i * yy,
        i * xx,
    );
    lemma_mul_is_distributive_sub(i, y, yy);
    fp::lemma_vanishes_euclid(i, y - yy);
    lemma_root();
}

/// A point in affine coordinates.
pub struct Point {
    pub x: int,
    pub y: int,
}

/// The coordinates are reduced and satisfy the curve equation.
pub open spec fn valid(a: Point) -> bool {
    &&& 0 <= a.x < fp::p()
    &&& 0 <= a.y < fp::p()
    &&& on_curve(a.x, a.y)
}

/// The sum of two points.
pub open spec fn plus(a: Point, b: Point) -> Point {
    let z = cross(a.x, a.y, b.x, b.y);
    Point {
        x: ((a.x * b.y + b.x * a.y) * fp::inverse(1 + z)) % fp::p(),
        y: ((a.y * b.y + a.x * b.x) * fp::inverse(1 - z)) % fp::p(),
    }
}

/// The neutral point.
pub open spec fn identity() -> Point {
    Point { x: 0, y: 1 }
}

/// The standard base point: the one with `y = 4 / 5` and even `x`.
pub open spec fn base() -> Point {
    Point {
        x: 15112221349535400772501151409588531511454012693041857206046113283949847762202int,
        y: 46316835694926478169428394003475163141307993866256225615783033603165251855960int,
    }
}

/// The sum of `n` copies of a point.
pub open spec fn times(n: nat, a: Point) -> Point
    decreases n,
{
    if n == 0 {
        identity()
    } else {
        plus(times((n - 1) as nat, a), a)
    }
}

/// The number of points that the base point generates: `2^252 + 27742...493`, a prime.
pub open spec fn order() -> int {
    7237005577332262213973186563042994240857116359379907606001950938285454250989int
}

/// A numerator over its denominator.
proof fn lemma_quotient(n: int, k: int)
    requires
        !fp::vanishes(k),
    ensures
        fp::vanishes(((n * fp::inverse(k)) % fp::p()) * k - n),
{
    let v: int = fp::inverse(k);
    let x: int = (n * v) % fp::p();
    fp::lemma_inverse(k);
    fp::lemma_remainder(n * v);
    fp::lemma_vanishes_sum2(k, x - n * v, n, k * v - 1);
    ring::lemma_quotient_scaled(x, n, v, k);
}

/// The coordinates of a sum satisfy the addition law and the curve equation.
pub proof fn lemma_plus(a: Point, b: Point)
    requires
        valid(a),
        valid(b),
    ensures
        valid(plus(a, b)),
        adds_to(a.x, a.y, b.x, b.y, plus(a, b).x, plus(a, b).y),
{
    let z: int = cross(a.x, a.y, b.x, b.y);
    lemma_complete(a.x, a.y, b.x, b.y);
    lemma_quotient(a.x * b.y + b.x * a.y, 1 + z);
    lemma_quotient(a.y * b.y + a.x * b.x, 1 - z);
    fp::lemma_remainder((a.x * b.y + b.x * a.y) * fp::inverse(1 + z));
    fp::lemma_remainder((a.y * b.y + a.x * b.x) * fp::inverse(1 - z));
    lemma_closed(a.x, a.y, b.x, b.y, plus(a, b).x, plus(a, b).y);
}

/// Coordinates that satisfy the addition law are those of the sum.
pub proof fn lemma_plus_unique(a: Point, b: Point, x: int, y: int)
    requires
        valid(a),
        valid(b),
        adds_to(a.x, a.y, b.x, b.y, x, y),
    ensures
        plus(a, b).x == x % fp::p(),
        plus(a, b).y == y % fp::p(),
{
    let s = plus(a, b);
    let z: int = cross(a.x, a.y, b.x, b.y);
    lemma_plus(a, b);
    lemma_complete(a.x, a.y, b.x, b.y);
    lemma_same_quotient(s.x, x, 1 + z, a.x * b.y + b.x * a.y);
    lemma_same_quotient(s.y, y, 1 - z, a.y * b.y + a.x * b.x);
}

proof fn lemma_same_quotient(s: int, x: int, k: int, n: int)
    requires
        !fp::vanishes(k),
        0 <= s < fp::p(),
        fp::vanishes(s * k - n),
        fp::vanishes(x * k - n),
    ensures
        s == x % fp::p(),
{
    fp::lemma_vanishes_add(s * k - n, x * k - n);
    lemma_mul_is_distributive_sub_other_way(k, s, x);
    fp::lemma_vanishes_euclid(s - x, k);
    fp::lemma_vanishes_difference(s, x);
    modular::lemma_small(s, fp::p());
}

/// The sum of points is commutative.
pub proof fn lemma_plus_commutes(a: Point, b: Point)
    ensures
        plus(a, b) == plus(b, a),
{
    lemma_mul_is_commutative(a.x * a.y, b.x * b.y);
    lemma_mul_is_commutative(a.y, b.y);
    lemma_mul_is_commutative(a.x, b.x);
}

/// The sum of points is associative.
pub proof fn lemma_plus_associates(a: Point, b: Point, c: Point)
    requires
        valid(a),
        valid(b),
        valid(c),
    ensures
        plus(plus(a, b), c) == plus(a, plus(b, c)),
{
    let ab = plus(a, b);
    let bc = plus(b, c);
    let l = plus(ab, c);
    let r = plus(a, bc);
    lemma_plus(a, b);
    lemma_plus(b, c);
    lemma_plus(ab, c);
    lemma_plus(a, bc);
    lemma_adds_associates(
        a.x,
        a.y,
        b.x,
        b.y,
        c.x,
        c.y,
        ab.x,
        ab.y,
        bc.x,
        bc.y,
        l.x,
        l.y,
        r.x,
        r.y,
    );
    fp::lemma_reduced_unique(l.x, r.x);
    fp::lemma_reduced_unique(l.y, r.y);
}

/// The neutral point is neutral.
pub proof fn lemma_plus_identity(a: Point)
    requires
        valid(a),
    ensures
        valid(identity()),
        plus(a, identity()) == a,
        plus(identity(), a) == a,
{
    let o = identity();
    fp::lemma_vanishes_zero();
    lemma_mul_basics(a.x);
    lemma_mul_basics(a.y);
    lemma_mul_basics(a.x * a.y);
    assert(o.x * o.y == 0);
    assert(cross(a.x, a.y, o.x, o.y) == 0);
    assert(defect(o.x, o.y) == 0);
    lemma_plus_unique(a, o, a.x, a.y);
    modular::lemma_small(a.x, fp::p());
    modular::lemma_small(a.y, fp::p());
    lemma_plus_commutes(a, o);
}

/// Multiples of a point are points.
pub proof fn lemma_times_valid(n: nat, a: Point)
    requires
        valid(a),
    ensures
        valid(times(n, a)),
    decreases n,
{
    if n == 0 {
        lemma_plus_identity(a);
    } else {
        lemma_times_valid((n - 1) as nat, a);
        lemma_plus(times((n - 1) as nat, a), a);
    }
}

/// The multiples of a point add up: `[m]P + [n]P = [m + n]P`.
pub proof fn lemma_times_adds(m: nat, n: nat, a: Point)
    requires
        valid(a),
    ensures
        plus(times(m, a), times(n, a)) == times(m + n, a),
    decreases n,
{
    lemma_times_valid(m, a);
    if n == 0 {
        lemma_plus_identity(times(m, a));
    } else {
        let k: nat = (n - 1) as nat;
        lemma_times_valid(k, a);
        lemma_times_adds(m, k, a);
        lemma_plus_associates(times(m, a), times(k, a), a);
        assert((m + n - 1) as nat == m + k);
    }
}

/// A point is its own first multiple.
pub proof fn lemma_times_one(a: Point)
    requires
        valid(a),
    ensures
        times(1, a) == a,
{
    reveal_with_fuel(times, 2);
    lemma_plus_identity(a);
}

} // verus!
