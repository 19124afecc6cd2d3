//! Curve points in extended coordinates: `x = X / Z`, `y = Y / Z` and `T Z = X Y`.
use vstd::arithmetic::div_mod::*;
use vstd::arithmetic::mul::*;
use vstd::arithmetic::power2::*;
use vstd::prelude::*;

use crate::bytes;
use crate::edwards;
use crate::field;
use crate::field::{fe_add, fe_invert, fe_mul, fe_sub, fe_to_bytes, Fe, FE_ONE};
use crate::fp;
use crate::modular;
use crate::order;
use crate::ring;

verus! {

/// Twice the constant of the curve equation.
pub const EDWARDS_D2: Fe = [
    1859910466990425,
    932731440258426,
    1072319116312658,
    1815898335770999,
    633789495995903,
];

/// The first coordinate of the base point.
pub const BASE_X: Fe = [
    1738742601995546,
    1146398526822698,
    2070867633025821,
    562264141797630,
    587772402128613,
];

/// The second coordinate of the base point, `4 / 5`.
pub const BASE_Y: Fe = [
    1801439850948184,
    1351079888211148,
    450359962737049,
    900719925474099,
    1801439850948198,
];

/// The product of the coordinates of the base point.
pub const BASE_T: Fe = [
    1841354044333475,
    16398895984059,
    755974180946558,
    900171276175154,
    1821297809914039,
];

/// Zero.
pub const FE_ZERO: Fe = [0, 0, 0, 0, 0];

/// A curve point in extended coordinates.
#[derive(Clone, Copy)]
pub struct Pt {
    pub x: Fe,
    pub y: Fe,
    pub z: Fe,
    pub t: Fe,
}

/// The coordinates `x`, `y` of a point are `X / Z`, `Y / Z`, and `T Z = X Y`.
pub open spec fn extends(xx: int, yy: int, zz: int, tt: int, x: int, y: int) -> bool {
    &&& !fp::vanishes(zz)
    &&& fp::vanishes(xx - x * zz)
    &&& fp::vanishes(yy - y * zz)
    &&& fp::vanishes(tt * zz - xx * yy)
}

impl Pt {
    /// The limbs leave room for one more operation.
    pub open spec fn bounded(self) -> bool {
        &&& field::loose(self.x)
        &&& field::loose(self.y)
        &&& field::loose(self.z)
        &&& field::loose(self.t)
    }

    /// The limbs are bounded as those of products are.
    pub open spec fn narrow(self) -> bool {
        &&& field::narrow(self.x)
        &&& field::narrow(self.y)
        &&& field::narrow(self.z)
        &&& field::narrow(self.t)
    }

    /// The affine point `X / Z`, `Y / Z`.
    pub open spec fn point(self) -> edwards::Point {
        let k = fp::inverse(field::value(self.z));
        edwards::Point {
            x: (field::value(self.x) * k) % fp::p(),
            y: (field::value(self.y) * k) % fp::p(),
        }
    }

    /// The coordinates are bounded, consistent, and those of a point of the curve.
    pub open spec fn wf(self) -> bool {
        &&& self.bounded()
        &&& !fp::vanishes(field::value(self.z))
        &&& fp::vanishes(
            field::value(self.t) * field::value(self.z) - field::value(self.x)
                * field::value(self.y),
        )
        &&& edwards::valid(self.point())
    }
}

/// The extended coordinates of a well-formed value are those of its affine point.
proof fn lemma_wf_extends(p: Pt)
    requires
        p.wf(),
    ensures
        extends(
            field::value(p.x),
            field::value(p.y),
            field::value(p.z),
            field::value(p.t),
            p.point().x,
            p.point().y,
        ),
{
    let z: int = field::value(p.z);
    lemma_wf_coordinate(field::value(p.x), z);
    lemma_wf_coordinate(field::value(p.y), z);
}

/// An affine coordinate times the third extended one.
pub proof fn lemma_wf_coordinate(x: int, z: int)
    requires
        !fp::vanishes(z),
    ensures
        fp::vanishes(x - ((x * fp::inverse(z)) % fp::p()) * z),
{
    let k: int = fp::inverse(z);
    fp::lemma_inverse(z);
    fp::lemma_remainder(x * k);
    let a: int = (x * k) % fp::p();
    fp::lemma_vanishes_sum2(z, a - x * k, x, z * k - 1);
    ring::lemma_quotient_scaled(a, x, k, z);
    fp::lemma_vanishes_negate(a * z - x);
}

/// Bounded coordinates that extend a point of the curve are well-formed and stand for it.
proof fn lemma_extends_wf(p: Pt, a: edwards::Point)
    requires
        p.bounded(),
        edwards::valid(a),
        extends(
            field::value(p.x),
            field::value(p.y),
            field::value(p.z),
            field::value(p.t),
            a.x,
            a.y,
        ),
    ensures
        p.wf(),
        p.point() == a,
{
    let z: int = field::value(p.z);
    lemma_extends_coordinate(field::value(p.x), z, a.x);
    lemma_extends_coordinate(field::value(p.y), z, a.y);
}

proof fn lemma_extends_coordinate(x: int, z: int, a: int)
    requires
        !fp::vanishes(z),
        0 <= a < fp::p(),
        fp::vanishes(x - a * z),
    ensures
        (x * fp::inverse(z)) % fp::p() == a,
{
    lemma_wf_coordinate(x, z);
    let b: int = (x * fp::inverse(z)) % fp::p();
    fp::lemma_remainder(x * fp::inverse(z));
    fp::lemma_vanishes_add(x - b * z, x - a * z);
    lemma_mul_is_distributive_sub_other_way(z, a, b);
    fp::lemma_vanishes_euclid(a - b, z);
    fp::lemma_reduced_unique(a, b);
}

/// The fourth coordinate is `x y Z`.
proof fn lemma_fourth(xx: int, yy: int, zz: int, tt: int, x: int, y: int)
    requires
        extends(xx, yy, zz, tt, x, y),
    ensures
        fp::vanishes(tt - (x * y) * zz),
{
    fp::lemma_product_same(xx, x * zz, yy, y * zz);
    fp::lemma_vanishes_add(tt * zz - xx * yy, xx * yy - (x * zz) * (y * zz));
    ring::lemma_fourth(x, y, zz);
    lemma_mul_is_distributive_sub_other_way(zz, tt, (x * y) * zz);
    fp::lemma_vanishes_euclid(tt - (x * y) * zz, zz);
}

/// The sums of products of coordinates that the addition formulas are made of.
proof fn lemma_sum_terms(
    x1: int,
    y1: int,
    z1: int,
    x2: int,
    y2: int,
    z2: int,
    xx1: int,
    yy1: int,
    xx2: int,
    yy2: int,
    a: int,
    b: int,
    e: int,
    h: int,
)
    requires
        fp::vanishes(xx1 - x1 * z1),
        fp::vanishes(yy1 - y1 * z1),
        fp::vanishes(xx2 - x2 * z2),
        fp::vanishes(yy2 - y2 * z2),
        fp::vanishes(a - (yy1 - xx1) * (yy2 - xx2)),
        fp::vanishes(b - (yy1 + xx1) * (yy2 + xx2)),
        fp::vanishes(e - (b - a)),
        fp::vanishes(h - (b + a)),
    ensures
        fp::vanishes(e - (x1 * y2 + x2 * y1) * (2 * (z1 * z2))),
        fp::vanishes(h - (y1 * y2 + x1 * x2) * (2 * (z1 * z2))),
{
    let (u1, v1, u2, v2): (int, int, int, int) = (x1 * z1, y1 * z1, x2 * z2, y2 * z2);
    fp::lemma_vanishes_add(yy1 - v1, xx1 - u1);
    fp::lemma_vanishes_add(yy2 - v2, xx2 - u2);
    fp::lemma_product_same(yy1 - xx1, v1 - u1, yy2 - xx2, v2 - u2);
    fp::lemma_product_same(yy1 + xx1, v1 + u1, yy2 + xx2, v2 + u2);
    let a0: int = (v1 - u1) * (v2 - u2);
    let b0: int = (v1 + u1) * (v2 + u2);
    fp::lemma_vanishes_add(a - (yy1 - xx1) * (yy2 - xx2), (yy1 - xx1) * (yy2 - xx2) - a0);
    fp::lemma_vanishes_add(b - (yy1 + xx1) * (yy2 + xx2), (yy1 + xx1) * (yy2 + xx2) - b0);
    fp::lemma_vanishes_add(b - b0, a - a0);
    fp::lemma_vanishes_add(e - (b - a), b - b0 - (a - a0));
    fp::lemma_vanishes_add(h - (b + a), b - b0 + (a - a0));
    ring::lemma_projective_sums(x1, y1, z1, x2, y2, z2);
}

/// The unified addition formulas add points.
proof fn lemma_sum(
    a: edwards::Point,
    b: edwards::Point,
    z1: int,
    z2: int,
    e: int,
    f: int,
    g: int,
    h: int,
    x3: int,
    y3: int,
    z3: int,
    t3: int,
)
    requires
        edwards::valid(a),
        edwards::valid(b),
        !fp::vanishes(z1),
        !fp::vanishes(z2),
        ({
            let k = 2 * (z1 * z2);
            let z = edwards::cross(a.x, a.y, b.x, b.y);
            &&& fp::vanishes(e - (a.x * b.y + b.x * a.y) * k)
            &&& fp::vanishes(h - (a.y * b.y + a.x * b.x) * k)
            &&& fp::vanishes(f - (1 - z) * k)
            &&& fp::vanishes(g - (1 + z) * k)
        }),
        fp::vanishes(x3 - e * f),
        fp::vanishes(y3 - g * h),
        fp::vanishes(t3 - e * h),
        fp::vanishes(z3 - f * g),
    ensures
        extends(x3, y3, z3, t3, edwards::plus(a, b).x, edwards::plus(a, b).y),
        edwards::valid(edwards::plus(a, b)),
{
    let k: int = 2 * (z1 * z2);
    let z: int = edwards::cross(a.x, a.y, b.x, b.y);
    let s = edwards::plus(a, b);
    let n: int = a.x * b.y + b.x * a.y;
    let m: int = a.y * b.y + a.x * b.x;
    edwards::lemma_plus(a, b);
    edwards::lemma_complete(a.x, a.y, b.x, b.y);
    // the common factor is not zero
    if fp::vanishes(k) {
        fp::lemma_small_nonzero(2);
        fp::lemma_vanishes_euclid(2, z1 * z2);
        fp::lemma_vanishes_euclid(z1, z2);
    }
    if fp::vanishes((1 - z) * k) {
        fp::lemma_vanishes_euclid(1 - z, k);
    }
    if fp::vanishes((1 + z) * k) {
        fp::lemma_vanishes_euclid(1 + z, k);
    }
    fp::lemma_product_same(f, (1 - z) * k, g, (1 + z) * k);
    let zz: int = ((1 - z) * k) * ((1 + z) * k);
    fp::lemma_vanishes_add(z3 - f * g, f * g - zz);
    if fp::vanishes(z3) {
        fp::lemma_vanishes_same(z3, zz);
        fp::lemma_vanishes_euclid((1 - z) * k, (1 + z) * k);
    }
    lemma_sum_coordinate(x3, e, f, n, 1 - z, 1 + z, k, s.x, z3);
    ring::lemma_swapped(1 - z, 1 + z, k);
    lemma_mul_is_commutative(g, h);
    lemma_sum_coordinate(y3, h, g, m, 1 + z, 1 - z, k, s.y, z3);
    // T3 Z3 = (E H) (F G) = (E F) (G H) = X3 Y3
    fp::lemma_product_same(t3, e * h, z3, f * g);
    fp::lemma_product_same(x3, e * f, y3, g * h);
    ring::lemma_fourth_product(e, f, g, h);
    fp::lemma_vanishes_add(t3 * z3 - (e * h) * (f * g), x3 * y3 - (e * f) * (g * h));
}

/// A coordinate of a sum: `E F` is the numerator over one denominator times both.
proof fn lemma_sum_coordinate(
    x3: int,
    e: int,
    f: int,
    n: int,
    u: int,
    w: int,
    k: int,
    x: int,
    z3: int,
)
    requires
        fp::vanishes(x3 - e * f),
        fp::vanishes(e - n * k),
        fp::vanishes(f - u * k),
        fp::vanishes(x * w - n),
        fp::vanishes(z3 - (u * k) * (w * k)),
    ensures
        fp::vanishes(x3 - x * z3),
{
    let zz: int = (u * k) * (w * k);
    fp::lemma_product_same(e, n * k, f, u * k);
    fp::lemma_vanishes_add(x3 - e * f, e * f - (n * k) * (u * k));
    fp::lemma_vanishes_mul(k * (u * k), x * w - n);
    ring::lemma_sum_scaled(x, w, n, u, k);
    fp::lemma_vanishes_add(x3 - (n * k) * (u * k), (k * (u * k)) * (x * w - n));
    fp::lemma_vanishes_mul(x, z3 - zz);
    lemma_mul_is_distributive_sub(x, z3, zz);
    fp::lemma_vanishes_add(x3 - x * zz, x * (z3 - zz));
}

/// The value of the doubled curve constant.
proof fn lemma_d2()
    ensures
        fp::vanishes(field::value(EDWARDS_D2) - 2 * edwards::d()),
        field::tight(EDWARDS_D2),
{
    assert(field::value(EDWARDS_D2)
        == 0x2406d9dc56dffce7198e80f2eef3d13000e0149a8283b156ebd69b9426b2f159int);
    fp::lemma_prime_vanishes(-1);
    assert(field::value(EDWARDS_D2) - 2 * edwards::d() == -1 * fp::p());
}

/// The third term of the addition formulas is `2 d x1 y1 x2 y2 Z1 Z2`.
proof fn lemma_sum_cross(
    t1: int,
    t2: int,
    z1: int,
    z2: int,
    q1: int,
    q2: int,
    c: int,
    c0: int,
    d2: int,
)
    requires
        fp::vanishes(t1 - q1 * z1),
        fp::vanishes(t2 - q2 * z2),
        fp::vanishes(c0 - t1 * t2),
        fp::vanishes(d2 - 2 * edwards::d()),
        fp::vanishes(c - c0 * d2),
    ensures
        fp::vanishes(c - (edwards::d() * (q1 * q2)) * (2 * (z1 * z2))),
{
    fp::lemma_product_same(t1, q1 * z1, t2, q2 * z2);
    fp::lemma_vanishes_add(c0 - t1 * t2, t1 * t2 - (q1 * z1) * (q2 * z2));
    fp::lemma_product_same(c0, (q1 * z1) * (q2 * z2), d2, 2 * edwards::d());
    fp::lemma_vanishes_add(
        c - c0 * d2,
        c0 * d2 - ((q1 * z1) * (q2 * z2)) * (2 * edwards::d()),
    );
    ring::lemma_cross_regrouped(q1, q2, z1, z2, edwards::d());
}

/// Every coordinate of a sum is what the addition formulas give, modulo the prime.
pub open spec fn sums(p: Pt, q: Pt, r: Pt) -> bool {
    let a = (field::value(p.y) - field::value(p.x)) * (field::value(q.y) - field::value(q.x));
    let b = (field::value(p.y) + field::value(p.x)) * (field::value(q.y) + field::value(q.x));
    let c = (field::value(p.t) * field::value(q.t)) * (2 * edwards::d());
    let d = 2 * (field::value(p.z) * field::value(q.z));
    &&& fp::vanishes(field::value(r.x) - (b - a) * (d - c))
    &&& fp::vanishes(field::value(r.y) - (d + c) * (b + a))
    &&& fp::vanishes(field::value(r.t) - (b - a) * (b + a))
    &&& fp::vanishes(field::value(r.z) - (d - c) * (d + c))
}

/// A product of two sums or differences.
proof fn lemma_formula(r: int, e: int, f: int, e0: int, f0: int)
    requires
        fp::vanishes(r - e * f),
        fp::vanishes(e - e0),
        fp::vanishes(f - f0),
    ensures
        fp::vanishes(r - e0 * f0),
{
    fp::lemma_product_same(e, e0, f, f0);
    fp::lemma_vanishes_add(r - e * f, e * f - e0 * f0);
}

/// The sum and the difference of two terms.
proof fn lemma_formula_terms(a: int, b: int, a0: int, b0: int, minus: int, plus: int)
    requires
        fp::vanishes(a - a0),
        fp::vanishes(b - b0),
        fp::vanishes(minus - (b - a)),
        fp::vanishes(plus - (b + a)),
    ensures
        fp::vanishes(minus - (b0 - a0)),
        fp::vanishes(plus - (b0 + a0)),
{
    fp::lemma_vanishes_add(b - b0, a - a0);
    fp::lemma_vanishes_add(minus - (b - a), b - b0 - (a - a0));
    fp::lemma_vanishes_add(plus - (b + a), b - b0 + (a - a0));
}

/// The sum of two points, which may be equal.
pub fn pt_add(p: &Pt, q: &Pt) -> (r: Pt)
    requires
        p.bounded(),
        q.bounded(),
    ensures
        r.narrow(),
        sums(*p, *q, r),
        p.wf() && q.wf() ==> r.wf() && r.point() == edwards::plus(p.point(), q.point()),
{
    proof {
        lemma_d2();
    }
    let ym1 = fe_sub(&p.y, &p.x);
    let ym2 = fe_sub(&q.y, &q.x);
    let yp1 = fe_add(&p.y, &p.x);
    let yp2 = fe_add(&q.y, &q.x);
    let a = fe_mul(&ym1, &ym2);
    let b = fe_mul(&yp1, &yp2);
    let tt = fe_mul(&p.t, &q.t);
    let c = fe_mul(&tt, &EDWARDS_D2);
    let zz = fe_add(&p.z, &p.z);
    let d = fe_mul(&zz, &q.z);
    let e = fe_sub(&b, &a);
    let f = fe_sub(&d, &c);
    let g = fe_add(&d, &c);
    let h = fe_add(&b, &a);
    let r = Pt { x: fe_mul(&e, &f), y: fe_mul(&g, &h), t: fe_mul(&e, &h), z: fe_mul(&f, &g) };
    proof {
        let (x1, y1, z1, t1): (int, int, int, int) = (
            field::value(p.x),
            field::value(p.y),
            field::value(p.z),
            field::value(p.t),
        );
        let (x2, y2, z2, t2): (int, int, int, int) = (
            field::value(q.x),
            field::value(q.y),
            field::value(q.z),
            field::value(q.t),
        );
        let a0: int = (y1 - x1) * (y2 - x2);
        let b0: int = (y1 + x1) * (y2 + x2);
        let c0: int = (t1 * t2) * (2 * edwards::d());
        let d0: int = 2 * (z1 * z2);
        fp::lemma_vanishes_zero();
        lemma_formula(field::value(a), field::value(ym1), field::value(ym2), y1 - x1, y2 - x2);
        lemma_formula(field::value(b), field::value(yp1), field::value(yp2), y1 + x1, y2 + x2);
        lemma_formula(
            field::value(c),
            field::value(tt),
            field::value(EDWARDS_D2),
            t1 * t2,
            2 * edwards::d(),
        );
        lemma_formula(field::value(d), field::value(zz), z2, z1 + z1, z2);
        lemma_mul_is_associative(2, z1, z2);
        lemma_sums(
            a0,
            b0,
            c0,
            d0,
            field::value(a),
            field::value(b),
            field::value(c),
            field::value(d),
            field::value(e),
            field::value(f),
            field::value(g),
            field::value(h),
            r,
        );
        if p.wf() && q.wf() {
            let (pp, qq) = (p.point(), q.point());
            lemma_wf_extends(*p);
            lemma_wf_extends(*q);
            lemma_fourth(x1, y1, z1, t1, pp.x, pp.y);
            lemma_fourth(x2, y2, z2, t2, qq.x, qq.y);
            lemma_sum_terms(
                pp.x,
                pp.y,
                z1,
                qq.x,
                qq.y,
                z2,
                x1,
                y1,
                x2,
                y2,
                field::value(a),
                field::value(b),
                field::value(e),
                field::value(h),
            );
            lemma_sum_cross(
                t1,
                t2,
                z1,
                z2,
                pp.x * pp.y,
                qq.x * qq.y,
                field::value(c),
                field::value(tt),
                field::value(EDWARDS_D2),
            );
            lemma_denominators(
                field::value(d),
                field::value(c),
                d0,
                edwards::cross(pp.x, pp.y, qq.x, qq.y),
                field::value(f),
                field::value(g),
            );
            lemma_sum(
                pp,
                qq,
                z1,
                z2,
                field::value(e),
                field::value(f),
                field::value(g),
                field::value(h),
                field::value(r.x),
                field::value(r.y),
                field::value(r.z),
                field::value(r.t),
            );
            lemma_extends_wf(r, edwards::plus(pp, qq));
        }
    }
    r
}

/// The coordinates of a sum, from its terms.
proof fn lemma_sums(
    a0: int,
    b0: int,
    c0: int,
    d0: int,
    a: int,
    b: int,
    c: int,
    d: int,
    e: int,
    f: int,
    g: int,
    h: int,
    r: Pt,
)
    requires
        fp::vanishes(a - a0),
        fp::vanishes(b - b0),
        fp::vanishes(c - c0),
        fp::vanishes(d - d0),
        fp::vanishes(e - (b - a)),
        fp::vanishes(f - (d - c)),
        fp::vanishes(g - (d + c)),
        fp::vanishes(h - (b + a)),
        fp::vanishes(field::value(r.x) - e * f),
        fp::vanishes(field::value(r.y) - g * h),
        fp::vanishes(field::value(r.t) - e * h),
        fp::vanishes(field::value(r.z) - f * g),
    ensures
        fp::vanishes(field::value(r.x) - (b0 - a0) * (d0 - c0)),
        fp::vanishes(field::value(r.y) - (d0 + c0) * (b0 + a0)),
        fp::vanishes(field::value(r.t) - (b0 - a0) * (b0 + a0)),
        fp::vanishes(field::value(r.z) - (d0 - c0) * (d0 + c0)),
{
    lemma_formula_terms(a, b, a0, b0, e, h);
    lemma_formula_terms(c, d, c0, d0, f, g);
    lemma_formula(field::value(r.x), e, f, b0 - a0, d0 - c0);
    lemma_formula(field::value(r.y), g, h, d0 + c0, b0 + a0);
    lemma_formula(field::value(r.t), e, h, b0 - a0, b0 + a0);
    lemma_formula(field::value(r.z), f, g, d0 - c0, d0 + c0);
}

/// The two denominators of the addition formulas.
proof fn lemma_denominators(d: int, c: int, k: int, z: int, f: int, g: int)
    requires
        fp::vanishes(d - k),
        fp::vanishes(c - z * k),
        fp::vanishes(f - (d - c)),
        fp::vanishes(g - (d + c)),
    ensures
        fp::vanishes(f - (1 - z) * k),
        fp::vanishes(g - (1 + z) * k),
{
    fp::lemma_vanishes_add(d - k, c - z * k);
    fp::lemma_vanishes_add(f - (d - c), d - k - (c - z * k));
    fp::lemma_vanishes_add(g - (d + c), d - k + (c - z * k));
    lemma_mul_is_distributive_sub_other_way(k, 1, z);
    lemma_mul_is_distributive_add_other_way(k, 1, z);
    lemma_mul_basics(k);
}

/// The coordinates of the base point.
proof fn lemma_base()
    ensures
        field::value(BASE_X) == edwards::base().x,
        field::value(BASE_Y) == edwards::base().y,
        fp::vanishes(field::value(BASE_T) - field::value(BASE_X) * field::value(BASE_Y)),
        field::narrow(BASE_X),
        field::narrow(BASE_Y),
        field::narrow(BASE_T),
{
    assert(field::value(BASE_X)
        == 0x216936d3cd6e53fec0a4e231fdd6dc5c692cc7609525a7b2c9562d608f25d51aint);
    assert(field::value(BASE_Y)
        == 0x6666666666666666666666666666666666666666666666666666666666666658int);
    assert(field::value(BASE_T)
        == 0x67875f0fd78b766566ea4e8e64abe37d20f09f80775152f56dde8ab3a5b7dda3int);
    lemma_base_product(
        0x216936d3cd6e53fec0a4e231fdd6dc5c692cc7609525a7b2c9562d608f25d51aint,
        0x6666666666666666666666666666666666666666666666666666666666666658int,
        0x67875f0fd78b766566ea4e8e64abe37d20f09f80775152f56dde8ab3a5b7dda3int,
    );
}

proof fn lemma_base_product(x: int, y: int, t: int)
    requires
        (x * y) % 0x7fffffffffffffffffffffffffffffffffffffffffffffffffffffffffffffedint == t,
    ensures
        fp::vanishes(t - x * y),
{
    fp::lemma_remainder(x * y);
}

/// The extended coordinates of the standard base point.
pub open spec fn base_coordinates() -> Pt {
    Pt { x: BASE_X, y: BASE_Y, z: FE_ONE, t: BASE_T }
}

/// The standard base point.
pub fn basepoint() -> (r: Pt)
    ensures
        r.wf(),
        r.narrow(),
        r.point() == edwards::base(),
        r == base_coordinates(),
{
    let r = Pt { x: BASE_X, y: BASE_Y, z: FE_ONE, t: BASE_T };
    proof {
        lemma_base();
        order::lemma_base_valid();
        fp::lemma_small_nonzero(1);
        fp::lemma_vanishes_zero();
        assert(field::value(FE_ONE) == 1);
        lemma_mul_basics(edwards::base().x);
        lemma_mul_basics(edwards::base().y);
        lemma_mul_basics(field::value(BASE_T));
        lemma_extends_wf(r, edwards::base());
    }
    r
}

/// The neutral point.
pub fn identity() -> (r: Pt)
    ensures
        r.wf(),
        r.narrow(),
        r.point() == edwards::identity(),
        r == (Pt { x: FE_ZERO, y: FE_ONE, z: FE_ONE, t: FE_ZERO }),
{
    let r = Pt { x: FE_ZERO, y: FE_ONE, z: FE_ONE, t: FE_ZERO };
    proof {
        fp::lemma_small_nonzero(1);
        fp::lemma_vanishes_zero();
        assert(field::value(FE_ONE) == 1);
        assert(field::value(FE_ZERO) == 0);
        order::lemma_base_valid();
        edwards::lemma_plus_identity(edwards::base());
        lemma_extends_wf(r, edwards::identity());
    }
    r
}

/// The terms of the addition formulas that depend on the base point alone: `y - x`, `y + x`
/// and `2 d x y`.
pub open spec fn base_terms(b_sub: Fe, b_add: Fe, b_d2t: Fe) -> bool {
    let b = edwards::base();
    &&& field::loose(b_sub)
    &&& field::loose(b_add)
    &&& field::loose(b_d2t)
    &&& fp::vanishes(field::value(b_sub) - (b.y - b.x))
    &&& fp::vanishes(field::value(b_add) - (b.y + b.x))
    &&& fp::vanishes(field::value(b_d2t) - (b.x * b.y) * (2 * edwards::d()))
}

/// The terms that every addition of the base point uses.
pub fn base_cached() -> (r: (Fe, Fe, Fe))
    ensures
        base_terms(r.0, r.1, r.2),
{
    proof {
        lemma_base();
        lemma_d2();
    }
    let r = (fe_sub(&BASE_Y, &BASE_X), fe_add(&BASE_Y, &BASE_X), fe_mul(&BASE_T, &EDWARDS_D2));
    proof {
        let t: int = field::value(BASE_T);
        let d2: int = field::value(EDWARDS_D2);
        let b = edwards::base();
        fp::lemma_product_same(t, b.x * b.y, d2, 2 * edwards::d());
        fp::lemma_vanishes_add(
            field::value(r.2) - t * d2,
            t * d2 - (b.x * b.y) * (2 * edwards::d()),
        );
    }
    r
}

/// The sum of a point and the base point: as [`pt_add`], without recomputing what depends on the
/// base point alone and without multiplying by its third coordinate.
pub fn pt_add_base(p: &Pt, b_sub: &Fe, b_add: &Fe, b_d2t: &Fe) -> (r: Pt)
    requires
        p.bounded(),
        base_terms(*b_sub, *b_add, *b_d2t),
    ensures
        r.narrow(),
        sums(*p, base_coordinates(), r),
        p.wf() ==> r.wf() && r.point() == edwards::plus(p.point(), edwards::base()),
{
    let ym = fe_sub(&p.y, &p.x);
    let yp = fe_add(&p.y, &p.x);
    let a = fe_mul(&ym, b_sub);
    let b = fe_mul(&yp, b_add);
    let c = fe_mul(&p.t, b_d2t);
    let d = fe_add(&p.z, &p.z);
    let e = fe_sub(&b, &a);
    let f = fe_sub(&d, &c);
    let g = fe_add(&d, &c);
    let h = fe_add(&b, &a);
    let r = Pt { x: fe_mul(&e, &f), y: fe_mul(&g, &h), t: fe_mul(&e, &h), z: fe_mul(&f, &g) };
    proof {
        let qq = edwards::base();
        let (x1, y1, z1, t1): (int, int, int, int) = (
            field::value(p.x),
            field::value(p.y),
            field::value(p.z),
            field::value(p.t),
        );
        let t2: int = field::value(BASE_T);
        let d2: int = 2 * edwards::d();
        let q2: int = qq.x * qq.y;
        lemma_base();
        order::lemma_base_valid();
        fp::lemma_vanishes_zero();
        assert(field::value(FE_ONE) == 1);
        lemma_mul_basics(z1);
        lemma_formula(
            field::value(a),
            field::value(ym),
            field::value(*b_sub),
            y1 - x1,
            qq.y - qq.x,
        );
        lemma_formula(
            field::value(b),
            field::value(yp),
            field::value(*b_add),
            y1 + x1,
            qq.y + qq.x,
        );
        lemma_formula(field::value(c), t1, field::value(*b_d2t), t1, q2 * d2);
        lemma_mul_is_associative(t1, q2, d2);
        fp::lemma_vanishes_negate(t2 - q2);
        fp::lemma_product_same(t1, t1, q2, t2);
        lemma_formula(field::value(c), t1 * q2, d2, t1 * t2, d2);
        lemma_sums(
            (y1 - x1) * (qq.y - qq.x),
            (y1 + x1) * (qq.y + qq.x),
            (t1 * t2) * d2,
            2 * (z1 * 1),
            field::value(a),
            field::value(b),
            field::value(c),
            field::value(d),
            field::value(e),
            field::value(f),
            field::value(g),
            field::value(h),
            r,
        );
        if p.wf() {
            let pp = p.point();
            lemma_wf_extends(*p);
            lemma_fourth(x1, y1, z1, t1, pp.x, pp.y);
            lemma_mul_basics(qq.x);
            lemma_mul_basics(qq.y);
            lemma_sum_terms(
                pp.x,
                pp.y,
                z1,
                qq.x,
                qq.y,
                1,
                x1,
                y1,
                qq.x,
                qq.y,
                field::value(a),
                field::value(b),
                field::value(e),
                field::value(h),
            );
            lemma_mul_basics(q2);
            lemma_sum_cross(
                t1,
                q2,
                z1,
                1,
                pp.x * pp.y,
                q2,
                field::value(c),
                t1 * q2,
                2 * edwards::d(),
            );
            lemma_denominators(
                field::value(d),
                field::value(c),
                2 * (z1 * 1),
                edwards::cross(pp.x, pp.y, qq.x, qq.y),
                field::value(f),
                field::value(g),
            );
            fp::lemma_small_nonzero(1);
            lemma_sum(
                pp,
                qq,
                z1,
                1,
                field::value(e),
                field::value(f),
                field::value(g),
                field::value(h),
                field::value(r.x),
                field::value(r.y),
                field::value(r.z),
                field::value(r.t),
            );
            lemma_extends_wf(r, edwards::plus(pp, qq));
        }
    }
    r
}

/// Adding the base point by its terms is adding it as any point: every coordinate of the result is
/// that of [`pt_add`], modulo the prime.
pub proof fn lemma_add_base_is_add(p: Pt, short: Pt, long: Pt)
    requires
        sums(p, base_coordinates(), short),
        sums(p, base_coordinates(), long),
    ensures
        field::value(short.x) % fp::p() == field::value(long.x) % fp::p(),
        field::value(short.y) % fp::p() == field::value(long.y) % fp::p(),
        field::value(short.z) % fp::p() == field::value(long.z) % fp::p(),
        field::value(short.t) % fp::p() == field::value(long.t) % fp::p(),
        short.point() == long.point(),
{
    let b = base_coordinates();
    let a0: int = (field::value(p.y) - field::value(p.x)) * (field::value(b.y) - field::value(b.x));
    let b0: int = (field::value(p.y) + field::value(p.x)) * (field::value(b.y) + field::value(b.x));
    let c0: int = (field::value(p.t) * field::value(b.t)) * (2 * edwards::d());
    let d0: int = 2 * (field::value(p.z) * field::value(b.z));
    fp::lemma_vanishes_difference(field::value(short.x), (b0 - a0) * (d0 - c0));
    fp::lemma_vanishes_difference(field::value(long.x), (b0 - a0) * (d0 - c0));
    fp::lemma_vanishes_difference(field::value(short.y), (d0 + c0) * (b0 + a0));
    fp::lemma_vanishes_difference(field::value(long.y), (d0 + c0) * (b0 + a0));
    fp::lemma_vanishes_difference(field::value(short.t), (b0 - a0) * (b0 + a0));
    fp::lemma_vanishes_difference(field::value(long.t), (b0 - a0) * (b0 + a0));
    fp::lemma_vanishes_difference(field::value(short.z), (d0 - c0) * (d0 + c0));
    fp::lemma_vanishes_difference(field::value(long.z), (d0 - c0) * (d0 + c0));
    fp::lemma_vanishes_difference(field::value(short.z), field::value(long.z));
    fp::lemma_inverse_same(field::value(short.z), field::value(long.z));
    let k: int = fp::inverse(field::value(long.z));
    modular::lemma_cong_mul(field::value(short.x), field::value(long.x), k, k, fp::p());
    modular::lemma_cong_mul(field::value(short.y), field::value(long.y), k, k, fp::p());
}

/// The multiple of the base point by a little-endian scalar, by doubling and adding from the
/// most significant bit down.
pub fn scalar_mul_base(scalar: &[u8; 32]) -> (r: Pt)
    ensures
        r.wf(),
        r.narrow(),
        r.point() == edwards::times(bytes::le_value(scalar@) as nat, edwards::base()),
{
    let base = basepoint();
    let mut r = identity();
    let mut i: u32 = 256;
    let ghost n: int = bytes::le_value(scalar@);
    proof {
        bytes::lemma_le_bound(scalar@, 0);
        lemma_basic_div(n, pow2(256) as int);
        order::lemma_base_valid();
    }
    while i > 0
        invariant
            i <= 256,
            n == bytes::le_value(scalar@),
            n >= 0,
            base.wf(),
            base.point() == edwards::base(),
            r.wf(),
            r.narrow(),
            r.point() == edwards::times((n / (pow2(i as nat) as int)) as nat, edwards::base()),
        decreases i,
    {
        i -= 1;
        let ghost h: int = n / (pow2((i + 1) as nat) as int);
        let ghost m: int = n / (pow2(i as nat) as int);
        proof {
            lemma_next_bit(scalar@, i as nat);
            order::lemma_base_valid();
            edwards::lemma_times_adds(h as nat, h as nat, edwards::base());
        }
        r = pt_add(&r, &r);
        let byte: u8 = scalar[(i / 8) as usize];
        let shift: u32 = i % 8;
        proof {
            lemma_byte_bit(byte, shift);
        }
        if (byte >> shift) & 1 == 1 {
            r = pt_add(&r, &base);
            proof {
                edwards::lemma_times_one(edwards::base());
                assert((m - 1) as nat == (2 * h) as nat);
            }
        }
    }
    proof {
        lemma2_to64();
        lemma_div_basics(n);
    }
    r
}

/// The bits of a number above `i`, from those above `i + 1`.
proof fn lemma_next_bit(s: Seq<u8>, i: nat)
    requires
        s.len() == 32,
        i < 256,
    ensures
        ({
            let n = bytes::le_value(s);
            let h = n / (pow2(i + 1) as int);
            let m = n / (pow2(i) as int);
            &&& 0 <= h
            &&& m == 2 * h + (s[(i / 8) as int] / (pow2(i % 8) as u8)) % 2
        }),
{
    let n: int = bytes::le_value(s);
    bytes::lemma_le_bound(s, 0);
    bytes::lemma_le_bit(s, i);
    lemma_pow2_unfold(i + 1);
    lemma_pow2_pos(i);
    lemma_pow2_pos(i + 1);
    lemma_mul_is_commutative(pow2(i) as int, 2);
    lemma_div_denominator(n, pow2(i) as int, 2);
    lemma_div_pos_is_pos(n, pow2(i + 1) as int);
}

/// A bit of a byte by shifting and masking.
proof fn lemma_byte_bit(b: u8, k: u32)
    requires
        k < 8,
    ensures
        (b >> k) & 1 == (b / (pow2(k as nat) as u8)) % 2,
{
    lemma2_to64();
    let c: u8 = b >> k;
    assert(c & 1 == c % 2) by (bit_vector);
    assert(b >> 0u32 == b / 1 && b >> 1u32 == b / 2 && b >> 2u32 == b / 4 && b >> 3u32 == b / 8 && b
        >> 4u32 == b / 16 && b >> 5u32 == b / 32 && b >> 6u32 == b / 64 && b >> 7u32 == b / 128)
        by (bit_vector);
    if k == 0 {
    } else if k == 1 {
    } else if k == 2 {
    } else if k == 3 {
    } else if k == 4 {
    } else if k == 5 {
    } else if k == 6 {
    } else {
        assert(k == 7);
    }
}

/// The number that the encoding of a point spells: its second coordinate, with the parity of the
/// first in the top bit.
pub open spec fn encoding(a: edwards::Point) -> int {
    a.y + 0x8000000000000000000000000000000000000000000000000000000000000000int * (a.x % 2)
}

/// The encoding of a point in affine coordinates.
pub fn encode_affine(x: &Fe, y: &Fe) -> (s: [u8; 32])
    ensures
        bytes::le_value(s@) == encoding(
            edwards::Point { x: field::value(*x) % fp::p(), y: field::value(*y) % fp::p() },
        ),
        bytes::le_value(s@) == field::value(*y) % fp::p()
            + 57896044618658097711785492504343953926634992332820282019728792003956564819968int * ((
        field::value(*x) % fp::p()) % 2),
{
    let mut s = fe_to_bytes(y);
    let xb = fe_to_bytes(x);
    let ghost s0 = s@;
    proof {
        modular::lemma_cong_reduce(field::value(*y), fp::p());
        lemma_top_byte(s0);
        lemma_sign_bit(s@[31], xb@[0]);
    }
    s[31] = s[31] | ((xb[0] & 1) << 7);
    proof {
        lemma_parity_added(s0, s@, xb@);
    }
    s
}

/// The last byte of a number below `2^255`.
proof fn lemma_top_byte(s: Seq<u8>)
    requires
        s.len() == 32,
        bytes::le_value(s) < 0x8000000000000000000000000000000000000000000000000000000000000000int,
    ensures
        s[31] < 128,
{
    bytes::lemma_le_value_32(s);
}

/// The parity of a number in the top bit of another.
proof fn lemma_parity_added(s: Seq<u8>, t: Seq<u8>, x: Seq<u8>)
    requires
        s.len() == 32,
        t.len() == 32,
        x.len() == 32,
        forall|i: int| 0 <= i < 31 ==> t[i] == s[i],
        t[31] == s[31] + 128 * (x[0] % 2),
    ensures
        bytes::le_value(t) == bytes::le_value(s)
            + 0x8000000000000000000000000000000000000000000000000000000000000000int * (
        bytes::le_value(x) % 2),
{
    bytes::lemma_le_value_32(s);
    bytes::lemma_le_value_32(t);
    assert(bytes::le_value(x) == x[0] + 256 * bytes::le_from(x, 1));
}

/// The encoding of a point.
pub fn compress(p: &Pt) -> (s: [u8; 32])
    requires
        field::loose(p.x),
        field::loose(p.y),
        field::loose(p.z),
    ensures
        bytes::le_value(s@) == encoding(p.point()),
        bytes::le_value(s@) == p.point().y
            + 57896044618658097711785492504343953926634992332820282019728792003956564819968int * (
        p.point().x % 2),
{
    let zinv = fe_invert(&p.z);
    let x = fe_mul(&p.x, &zinv);
    let y = fe_mul(&p.y, &zinv);
    proof {
        lemma_affine(field::value(p.x), field::value(p.z), field::value(zinv), field::value(x));
        lemma_affine(field::value(p.y), field::value(p.z), field::value(zinv), field::value(y));
    }
    encode_affine(&x, &y)
}

/// Points are encoded bit for bit alike however they were computed: two values that stand for one
/// point have one encoding.
pub proof fn lemma_one_encoding(p: Pt, q: Pt, s: Seq<u8>, t: Seq<u8>)
    requires
        p.point() == q.point(),
        s.len() == 32,
        t.len() == 32,
        bytes::le_value(s) == encoding(p.point()),
        bytes::le_value(t) == encoding(q.point()),
    ensures
        s == t,
{
    bytes::lemma_le_unique(s, t);
}

proof fn lemma_sign_bit(b: u8, x: u8)
    requires
        b < 128,
    ensures
        (b | ((x & 1) << 7)) == b + 128 * (x % 2),
{
    assert((b | ((x & 1) << 7)) == b + 128 * (x % 2)) by (bit_vector)
        requires
            b < 128,
    ;
}

/// An affine coordinate, from the inverse of the third one.
pub proof fn lemma_affine(x: int, z: int, zinv: int, r: int)
    requires
        zinv % fp::p() == fp::inverse(z),
        fp::vanishes(r - x * zinv),
    ensures
        r % fp::p() == (x * fp::inverse(z)) % fp::p(),
{
    fp::lemma_vanishes_difference(r, x * zinv);
    modular::lemma_cong_inner(x, zinv, fp::p());
}

} // verus!
