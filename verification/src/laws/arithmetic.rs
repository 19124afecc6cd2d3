//! The numbers behind the arithmetic: the prime, the curve and its points.
use vstd::prelude::*;

use crate::edwards;
use crate::field;
use crate::field::Fe;
use crate::fp;
use crate::modular;
use crate::order;
use crate::point;
use crate::point::Pt;

verus! {

/// What vanishes are the multiples of `2^255 - 19`.
pub proof fn lemma_vanishes(a: int)
    ensures
        fp::vanishes(a) <==> a
            % 57896044618658097711785492504343953926634992332820282019728792003956564819949int
            == 0,
{
    reveal(fp::vanishes);
}

/// Limbs count in powers of `2^51`.
pub proof fn lemma_value(f: Fe)
    ensures
        field::value(f) == f@[0] + 2251799813685248int * f@[1] + 5070602400912917605986812821504int
            * f@[2] + 11417981541647679048466287755595961091061972992int * f@[3]
            + 25711008708143844408671393477458601640355247900524685364822016int * f@[4],
{
}

/// The inverse of what is no multiple of the prime is the residue that gives one, and that of a
/// multiple is zero.
pub proof fn lemma_inverse(a: int)
    ensures
        ({
            let p = 57896044618658097711785492504343953926634992332820282019728792003956564819949int;
            &&& 0 <= fp::inverse(a) < p
            &&& a % p == 0 ==> fp::inverse(a) == 0
            &&& a % p != 0 ==> (a * fp::inverse(a)) % p == 1
        }),
{
    lemma_vanishes(a);
    reveal(fp::inverse);
    if a % fp::p() == 0 {
        fp::lemma_inverse_zero(a);
    } else {
        fp::lemma_inverse(a);
        fp::lemma_vanishes_difference(a * fp::inverse(a), 1);
        modular::lemma_small(1, fp::p());
    }
}

/// A product of field elements, a sum and a difference: what vanishes in their contracts is the
/// difference of two residues.
pub proof fn lemma_same_residue(a: int, b: int)
    ensures
        fp::vanishes(a - b) <==> a
            % 57896044618658097711785492504343953926634992332820282019728792003956564819949int
            == b
            % 57896044618658097711785492504343953926634992332820282019728792003956564819949int,
{
    fp::lemma_vanishes_difference(a, b);
}

/// The elements that a batch inverts are units exactly when none of them is a multiple of the prime.
pub proof fn lemma_all_units(s: Seq<Fe>, n: int)
    ensures
        field::all_units(s, n) <==> forall|i: int|
            0 <= i < n ==> field::value(#[trigger] s[i])
                % 57896044618658097711785492504343953926634992332820282019728792003956564819949int
                != 0,
{
    if field::all_units(s, n) {
        assert forall|i: int| 0 <= i < n implies field::value(#[trigger] s[i])
            % 57896044618658097711785492504343953926634992332820282019728792003956564819949int
            != 0 by {
            lemma_vanishes(field::value(s[i]));
        }
    } else {
        let i = choose|i: int| 0 <= i < n && fp::vanishes(field::value(#[trigger] s[i]));
        lemma_vanishes(field::value(s[i]));
    }
}

/// The points of the curve satisfy `y^2 - x^2 = 1 + d x^2 y^2`.
pub proof fn lemma_curve(a: edwards::Point)
    ensures
        ({
            let p = 57896044618658097711785492504343953926634992332820282019728792003956564819949int;
            let d = 37095705934669439343138083508754565189542113879843219016388785533085940283555int;
            let (x, y) = (a.x, a.y);
            edwards::valid(a) <==> 0 <= x < p && 0 <= y < p && (y * y - x * x - 1 - d * ((x * x)
                * (y * y))) % p == 0
        }),
{
    let (x, y) = (a.x, a.y);
    assert((x * y) * (x * y) == (x * x) * (y * y)) by (nonlinear_arith);
    lemma_vanishes(edwards::defect(a.x, a.y));
}

/// The sum of two points of the curve is a point of it with `x (1 + d x1 x2 y1 y2) = x1 y2 + x2 y1` and
/// `y (1 - d x1 x2 y1 y2) = y1 y2 + x1 x2`.
pub proof fn lemma_sum(a: edwards::Point, b: edwards::Point)
    requires
        edwards::valid(a),
        edwards::valid(b),
    ensures
        ({
            let p = 57896044618658097711785492504343953926634992332820282019728792003956564819949int;
            let d = 37095705934669439343138083508754565189542113879843219016388785533085940283555int;
            let s = edwards::plus(a, b);
            let z = d * ((a.x * a.y) * (b.x * b.y));
            &&& edwards::valid(s)
            &&& (s.x * (1 + z) - (a.x * b.y + b.x * a.y)) % p == 0
            &&& (s.y * (1 - z) - (a.y * b.y + a.x * b.x)) % p == 0
        }),
{
    edwards::lemma_plus(a, b);
    let s = edwards::plus(a, b);
    let z: int = edwards::cross(a.x, a.y, b.x, b.y);
    lemma_vanishes(s.x * (1 + z) - (a.x * b.y + b.x * a.y));
    lemma_vanishes(s.y * (1 - z) - (a.y * b.y + a.x * b.x));
}

/// The affine point of extended coordinates: residues that times `Z` are `X` and `Y`.
pub proof fn lemma_affine_point(a: Pt)
    requires
        field::value(a.z)
            % 57896044618658097711785492504343953926634992332820282019728792003956564819949int
            != 0,
    ensures
        ({
            let p = 57896044618658097711785492504343953926634992332820282019728792003956564819949int;
            let q = a.point();
            &&& 0 <= q.x < p && 0 <= q.y < p
            &&& (field::value(a.x) - q.x * field::value(a.z)) % p == 0
            &&& (field::value(a.y) - q.y * field::value(a.z)) % p == 0
        }),
{
    let z: int = field::value(a.z);
    lemma_vanishes(z);
    point::lemma_wf_coordinate(field::value(a.x), z);
    point::lemma_wf_coordinate(field::value(a.y), z);
    lemma_vanishes(field::value(a.x) - a.point().x * z);
    lemma_vanishes(field::value(a.y) - a.point().y * z);
}

/// The bounds on limbs by number.
pub proof fn lemma_bounds(f: Fe)
    ensures
        field::loose(f) <==> f@[0] < 18014398509481984 && f@[1] < 18014398509481984 && f@[2]
            < 18014398509481984 && f@[3] < 18014398509481984 && f@[4] < 18014398509481984,
        field::narrow(f) <==> f@[0] < 2251799813685248 && f@[1] < 2251799813693440 && f@[2]
            < 2251799813685248 && f@[3] < 2251799813685248 && f@[4] < 2251799813685248,
        field::swept(f) <==> f@[0] < 2251799813840896 && f@[1] < 2251799813693440 && f@[2]
            < 2251799813693440 && f@[3] < 2251799813693440 && f@[4] < 2251799813693440,
{
}

/// The products that a batch inversion leaves behind: none is one, and each takes one more element.
pub proof fn lemma_products(s: Seq<Fe>, n: int)
    requires
        0 <= n,
    ensures
        field::product(s, 0) == 1,
        field::product(s, n + 1) == field::product(s, n) * field::value(s[n]),
{
}

/// The coordinates of a sum, by the unified formulas modulo the prime.
pub proof fn lemma_addition(p: Pt, q: Pt, r: Pt)
    ensures
        ({
            let m = 57896044618658097711785492504343953926634992332820282019728792003956564819949int;
            let k = 2 * 37095705934669439343138083508754565189542113879843219016388785533085940283555int;
            let a = (field::value(p.y) - field::value(p.x)) * (field::value(q.y) - field::value(
                q.x,
            ));
            let b = (field::value(p.y) + field::value(p.x)) * (field::value(q.y) + field::value(
                q.x,
            ));
            let c = (field::value(p.t) * field::value(q.t)) * k;
            let d = 2 * (field::value(p.z) * field::value(q.z));
            point::sums(p, q, r) <==> (field::value(r.x) - (b - a) * (d - c)) % m == 0 && (
            field::value(r.y) - (d + c) * (b + a)) % m == 0 && (field::value(r.t) - (b - a) * (b
                + a)) % m == 0 && (field::value(r.z) - (d - c) * (d + c)) % m == 0
        }),
{
    let a: int = (field::value(p.y) - field::value(p.x)) * (field::value(q.y) - field::value(q.x));
    let b: int = (field::value(p.y) + field::value(p.x)) * (field::value(q.y) + field::value(q.x));
    let c: int = (field::value(p.t) * field::value(q.t)) * (2 * edwards::d());
    let d: int = 2 * (field::value(p.z) * field::value(q.z));
    lemma_vanishes(field::value(r.x) - (b - a) * (d - c));
    lemma_vanishes(field::value(r.y) - (d + c) * (b + a));
    lemma_vanishes(field::value(r.t) - (b - a) * (b + a));
    lemma_vanishes(field::value(r.z) - (d - c) * (d + c));
}

/// The base point: a point of the curve with `5 y = 4` and an even first coordinate.
pub proof fn lemma_base_point()
    ensures
        edwards::valid(edwards::base()),
        (5 * edwards::base().y - 4)
            % 57896044618658097711785492504343953926634992332820282019728792003956564819949int
            == 0,
        edwards::base().x % 2 == 0,
{
    order::lemma_base_valid();
}

/// The order of the base point: as many copies of it sum up to the neutral point.
pub proof fn lemma_base_order()
    ensures
        edwards::times(
            7237005577332262213973186563042994240857116359379907606001950938285454250989nat,
            edwards::base(),
        ) == (edwards::Point { x: 0, y: 1 }),
{
    order::lemma_order();
}

} // verus!
