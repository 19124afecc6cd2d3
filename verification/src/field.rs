//! The field of the prime `2^255 - 19` in radix `2^51`: five limbs of 64 bits.
//!
//! A limb may exceed 51 bits between reductions; the operations say how far.
use vstd::arithmetic::mul::*;
use vstd::arithmetic::power::*;
use vstd::arithmetic::power2::*;
use vstd::prelude::*;

use crate::bytes;
use crate::fp;
use crate::modular;
use crate::ring;

verus! {

/// A field element: limbs of weight `1`, `2^51`, `2^102`, `2^153` and `2^204`.
pub type Fe = [u64; 5];

/// The low 51 bits.
pub const FE_MASK: u64 = 2251799813685247;

/// One.
pub const FE_ONE: Fe = [1, 0, 0, 0, 0];

/// The integer that limbs stand for.
pub open spec fn weigh(l0: int, l1: int, l2: int, l3: int, l4: int) -> int {
    l0 + 0x8000000000000int * l1 + 0x40000000000000000000000000int * l2
        + 0x200000000000000000000000000000000000000int * l3
        + 0x1000000000000000000000000000000000000000000000000000int * l4
}

/// The integer that a field element stands for, before reduction modulo the prime.
pub open spec fn value(f: Fe) -> int {
    weigh(f@[0] as int, f@[1] as int, f@[2] as int, f@[3] as int, f@[4] as int)
}

/// Every limb is below `bound`.
pub open spec fn below(f: Fe, bound: int) -> bool {
    &&& f@[0] < bound
    &&& f@[1] < bound
    &&& f@[2] < bound
    &&& f@[3] < bound
    &&& f@[4] < bound
}

/// The bound on limbs under which products do not overflow: `2^54`.
pub open spec fn loose(f: Fe) -> bool {
    below(f, 0x40000000000000)
}

/// A bound on limbs that every operation establishes: `2^51 + 2^18`.
pub open spec fn tight(f: Fe) -> bool {
    below(f, 0x8000000040000)
}

/// The bounds on limbs that one pass of carries establishes: `2^51 + 19 * 2^13` for the first, and
/// `2^51 + 2^13` for the others.
pub open spec fn swept(f: Fe) -> bool {
    &&& f@[0] < 0x8000000026000
    &&& f@[1] < 0x8000000002000
    &&& f@[2] < 0x8000000002000
    &&& f@[3] < 0x8000000002000
    &&& f@[4] < 0x8000000002000
}

/// The bounds on limbs that a product has: `2^51 + 2^13` for the second, and `2^51` for the others.
pub open spec fn narrow(f: Fe) -> bool {
    &&& f@[0] < 0x8000000000000
    &&& f@[1] < 0x8000000002000
    &&& f@[2] < 0x8000000000000
    &&& f@[3] < 0x8000000000000
    &&& f@[4] < 0x8000000000000
}

proof fn lemma_split64(x: u64)
    ensures
        x >> 51 == x / 0x8000000000000,
        x & FE_MASK == x % 0x8000000000000,
        x >> 51 < 0x2000,
{
    assert(x >> 51 == x / 0x8000000000000 && x & 2251799813685247 == x % 0x8000000000000 && x >> 51
        < 0x2000) by (bit_vector);
}

proof fn lemma_split128(x: u128)
    ensures
        x >> 51 == x / 0x8000000000000,
        x & 2251799813685247 == x % 0x8000000000000,
{
    assert(x >> 51 == x / 0x8000000000000 && x & 2251799813685247 == x % 0x8000000000000)
        by (bit_vector);
}

/// A multiple of the prime may be dropped.
proof fn lemma_dropped(a: int, b: int, k: int)
    requires
        a - b == k * fp::p(),
    ensures
        fp::vanishes(b - a),
        fp::vanishes(a - b),
{
    fp::lemma_prime_vanishes(k);
    fp::lemma_vanishes_negate(k * fp::p());
}

/// Carries every limb into the next one once.
pub fn fe_reduce(l: [u64; 5]) -> (r: Fe)
    ensures
        tight(r),
        swept(r),
        value(r) == value(l) - (l@[4] / 0x8000000000000) * fp::p(),
        fp::vanishes(value(r) - value(l)),
        below(l, 0x8000000000000) ==> r@ == l@,
{
    let mut l = l;
    proof {
        lemma_split64(l@[0]);
        lemma_split64(l@[1]);
        lemma_split64(l@[2]);
        lemma_split64(l@[3]);
        lemma_split64(l@[4]);
        lemma_dropped(
            value(l),
            value(l) - (l@[4] / 0x8000000000000) * fp::p(),
            (l@[4] / 0x8000000000000) as int,
        );
    }
    let c0: u64 = l[0] >> 51;
    let c1: u64 = l[1] >> 51;
    let c2: u64 = l[2] >> 51;
    let c3: u64 = l[3] >> 51;
    let c4: u64 = l[4] >> 51;
    l[0] = l[0] & FE_MASK;
    l[1] = l[1] & FE_MASK;
    l[2] = l[2] & FE_MASK;
    l[3] = l[3] & FE_MASK;
    l[4] = l[4] & FE_MASK;
    l[0] = l[0] + c4 * 19;
    l[1] = l[1] + c0;
    l[2] = l[2] + c1;
    l[3] = l[3] + c2;
    l[4] = l[4] + c3;
    l
}

/// The sum of two field elements.
pub fn fe_add(a: &Fe, b: &Fe) -> (r: Fe)
    requires
        forall|i: int| 0 <= i < 5 ==> #[trigger] a@[i] + b@[i] <= u64::MAX,
    ensures
        tight(r),
        swept(r),
        fp::vanishes(value(r) - (value(*a) + value(*b))),
{
    fe_reduce([a[0] + b[0], a[1] + b[1], a[2] + b[2], a[3] + b[3], a[4] + b[4]])
}

/// The difference of two field elements: sixteen times the prime keeps it from going negative.
pub fn fe_sub(a: &Fe, b: &Fe) -> (r: Fe)
    requires
        a@[0] + 36028797018963664 <= u64::MAX,
        forall|i: int| 1 <= i < 5 ==> #[trigger] a@[i] + 36028797018963952 <= u64::MAX,
        b@[0] <= a@[0] + 36028797018963664,
        forall|i: int| 1 <= i < 5 ==> #[trigger] b@[i] <= a@[i] + 36028797018963952,
    ensures
        tight(r),
        swept(r),
        fp::vanishes(value(r) - (value(*a) - value(*b))),
{
    let l: [u64; 5] = [
        (a[0] + 36028797018963664) - b[0],
        (a[1] + 36028797018963952) - b[1],
        (a[2] + 36028797018963952) - b[2],
        (a[3] + 36028797018963952) - b[3],
        (a[4] + 36028797018963952) - b[4],
    ];
    let r = fe_reduce(l);
    proof {
        assert(value(l) == value(*a) - value(*b) + 16 * fp::p());
        lemma_dropped(value(l), value(*a) - value(*b), 16);
        fp::lemma_vanishes_add(value(r) - value(l), value(l) - (value(*a) - value(*b)));
    }
    r
}

/// A factor times the integer that limbs stand for.
proof fn lemma_scaled_limbs(x: int, b0: int, b1: int, b2: int, b3: int, b4: int)
    ensures
        x * weigh(b0, b1, b2, b3, b4) == weigh(x * b0, x * b1, x * b2, x * b3, x * b4),
{
    lemma_mul_is_distributive_add(x, b0, 0x8000000000000int * b1);
    lemma_mul_is_associative(x, 0x8000000000000int, b1);
    lemma_mul_is_commutative(x, 0x8000000000000int);
    lemma_mul_is_associative(0x8000000000000int, x, b1);
    lemma_mul_is_distributive_add(x, b0 + 0x8000000000000int * b1,
        0x40000000000000000000000000int * b2);
    lemma_mul_is_associative(x, 0x40000000000000000000000000int, b2);
    lemma_mul_is_commutative(x, 0x40000000000000000000000000int);
    lemma_mul_is_associative(0x40000000000000000000000000int, x, b2);
    lemma_mul_is_distributive_add(
        x,
        b0 + 0x8000000000000int * b1 + 0x40000000000000000000000000int * b2,
        0x200000000000000000000000000000000000000int * b3,
    );
    lemma_mul_is_associative(x, 0x200000000000000000000000000000000000000int, b3);
    lemma_mul_is_commutative(x, 0x200000000000000000000000000000000000000int);
    lemma_mul_is_associative(0x200000000000000000000000000000000000000int, x, b3);
    lemma_mul_is_distributive_add(
        x,
        b0 + 0x8000000000000int * b1 + 0x40000000000000000000000000int * b2
            + 0x200000000000000000000000000000000000000int * b3,
        0x1000000000000000000000000000000000000000000000000000int * b4,
    );
    lemma_mul_is_associative(x, 0x1000000000000000000000000000000000000000000000000000int, b4);
    lemma_mul_is_commutative(x, 0x1000000000000000000000000000000000000000000000000000int);
    lemma_mul_is_associative(0x1000000000000000000000000000000000000000000000000000int, x, b4);
}

/// The limbs of a product before any carry, with the high ones folded back: `2^255` is nineteen
/// more than the prime.
pub open spec fn folded(a: Seq<int>, b: Seq<int>) -> Seq<int> {
    seq![
        a[0] * b[0] + 19 * (a[1] * b[4]) + 19 * (a[2] * b[3]) + 19 * (a[3] * b[2]) + 19 * (a[4]
            * b[1]),
        a[0] * b[1] + a[1] * b[0] + 19 * (a[2] * b[4]) + 19 * (a[3] * b[3]) + 19 * (a[4] * b[2]),
        a[0] * b[2] + a[1] * b[1] + a[2] * b[0] + 19 * (a[3] * b[4]) + 19 * (a[4] * b[3]),
        a[0] * b[3] + a[1] * b[2] + a[2] * b[1] + a[3] * b[0] + 19 * (a[4] * b[4]),
        a[0] * b[4] + a[1] * b[3] + a[2] * b[2] + a[3] * b[1] + a[4] * b[0],
    ]
}

/// Folding the high limbs changes the product by a multiple of the prime.
proof fn lemma_folded(a: Seq<int>, b: Seq<int>)
    requires
        a.len() == 5,
        b.len() == 5,
    ensures
        ({
            let c = folded(a, b);
            fp::vanishes(
                weigh(c[0], c[1], c[2], c[3], c[4]) - weigh(a[0], a[1], a[2], a[3], a[4]) * weigh(
                    b[0],
                    b[1],
                    b[2],
                    b[3],
                    b[4],
                ),
            )
        }),
{
    let bb: int = weigh(b[0], b[1], b[2], b[3], b[4]);
    lemma_scaled_limbs(bb, a[0], a[1], a[2], a[3], a[4]);
    lemma_mul_is_commutative(bb, weigh(a[0], a[1], a[2], a[3], a[4]));
    lemma_scaled_limbs(a[0], b[0], b[1], b[2], b[3], b[4]);
    lemma_mul_is_commutative(bb, a[0]);
    lemma_scaled_limbs(a[1], b[0], b[1], b[2], b[3], b[4]);
    lemma_mul_is_commutative(bb, a[1]);
    lemma_scaled_limbs(a[2], b[0], b[1], b[2], b[3], b[4]);
    lemma_mul_is_commutative(bb, a[2]);
    lemma_scaled_limbs(a[3], b[0], b[1], b[2], b[3], b[4]);
    lemma_mul_is_commutative(bb, a[3]);
    lemma_scaled_limbs(a[4], b[0], b[1], b[2], b[3], b[4]);
    lemma_mul_is_commutative(bb, a[4]);
    let high: int = a[1] * b[4] + a[2] * b[3] + a[3] * b[2] + a[4] * b[1]
        + 0x8000000000000int * (a[2] * b[4] + a[3] * b[3] + a[4] * b[2])
        + 0x40000000000000000000000000int * (a[3] * b[4] + a[4] * b[3])
        + 0x200000000000000000000000000000000000000int * (a[4] * b[4]);
    let c = folded(a, b);
    lemma_dropped(
        weigh(a[0], a[1], a[2], a[3], a[4]) * bb,
        weigh(c[0], c[1], c[2], c[3], c[4]),
        high,
    );
}

/// A product of two limbs below the bound.
proof fn lemma_limb_product(a: int, b: int)
    requires
        0 <= a < 0x40000000000000,
        0 <= b < 0x40000000000000,
    ensures
        0 <= a * b < 0x40000000000000int * 0x40000000000000int,
        a * (b * 19) == 19 * (a * b),
        a * (19 * b) == 19 * (a * b),
        0 <= a * (b * 19),
{
    lemma_mul_nonnegative(a, b);
    lemma_mul_upper_bound(a, 0x3fffffffffffff, b, 0x3fffffffffffff);
    lemma_mul_is_associative(a, b, 19);
    lemma_mul_is_commutative(19, a * b);
    lemma_mul_is_commutative(19, b);
}

/// Every product of a limb of `a` and a limb of `b`.
proof fn lemma_limb_products(a: Fe, b: Fe)
    requires
        loose(a),
        loose(b),
    ensures
        forall|i: int, j: int|
            #![trigger a@[i] * b@[j]]
            0 <= i < 5 && 0 <= j < 5 ==> 0 <= a@[i] * b@[j] < 0x40000000000000int
                * 0x40000000000000int,
        forall|i: int, j: int|
            #![trigger a@[i] * (b@[j] * 19)]
            0 <= i < 5 && 0 <= j < 5 ==> a@[i] * (b@[j] * 19) == 19 * (a@[i] * b@[j]),
        forall|i: int, j: int|
            #![trigger a@[i] * (19 * b@[j])]
            0 <= i < 5 && 0 <= j < 5 ==> a@[i] * (19 * b@[j]) == 19 * (a@[i] * b@[j]),
{
    assert forall|i: int, j: int|
        #![trigger a@[i] * b@[j]]
        0 <= i < 5 && 0 <= j < 5 implies 0 <= a@[i] * b@[j] < 0x40000000000000int
        * 0x40000000000000int by {
        lemma_limb_product(a@[i] as int, b@[j] as int);
    }
    assert forall|i: int, j: int|
        #![trigger a@[i] * (b@[j] * 19)]
        0 <= i < 5 && 0 <= j < 5 implies a@[i] * (b@[j] * 19) == 19 * (a@[i] * b@[j]) by {
        lemma_limb_product(a@[i] as int, b@[j] as int);
    }
    assert forall|i: int, j: int|
        #![trigger a@[i] * (19 * b@[j])]
        0 <= i < 5 && 0 <= j < 5 implies a@[i] * (19 * b@[j]) == 19 * (a@[i] * b@[j]) by {
        lemma_limb_product(a@[i] as int, b@[j] as int);
    }
}

/// The limbs of a field element as integers.
pub open spec fn limbs(f: Fe) -> Seq<int> {
    seq![f@[0] as int, f@[1] as int, f@[2] as int, f@[3] as int, f@[4] as int]
}

/// Field elements with the same limbs are the same.
pub proof fn lemma_same_limbs(f: Fe, g: Fe)
    requires
        limbs(f) == limbs(g),
    ensures
        f == g,
{
    assert forall|i: int| 0 <= i < 5 implies f@[i] == g@[i] by {
        assert(limbs(f)[i] == limbs(g)[i]);
    }
    assert(f@ =~= g@);
}

/// The limbs of a product after its carries: each limb keeps its low 51 bits and passes the rest on
/// to the next, the last one back to the first, and the first once more to the second.
pub open spec fn carried(c: Seq<int>) -> Seq<int> {
    let c1 = c[1] + c[0] / 0x8000000000000;
    let c2 = c[2] + c1 / 0x8000000000000;
    let c3 = c[3] + c2 / 0x8000000000000;
    let c4 = c[4] + c3 / 0x8000000000000;
    let r0 = c[0] % 0x8000000000000 + 19 * (c4 / 0x8000000000000);
    seq![
        r0 % 0x8000000000000,
        c1 % 0x8000000000000 + r0 / 0x8000000000000,
        c2 % 0x8000000000000,
        c3 % 0x8000000000000,
        c4 % 0x8000000000000,
    ]
}

/// The limbs of the product of elements with given limbs.
pub open spec fn product_limbs(a: Seq<int>, b: Seq<int>) -> Seq<int> {
    carried(folded(a, b))
}

/// The limbs of an element that was squared `k` times.
pub open spec fn squared_limbs(a: Seq<int>, k: nat) -> Seq<int>
    decreases k,
{
    if k == 0 {
        a
    } else {
        let b = squared_limbs(a, (k - 1) as nat);
        product_limbs(b, b)
    }
}

/// Carries the limbs of a product.
fn fe_carry(c0: u128, c1: u128, c2: u128, c3: u128, c4: u128) -> (r: Fe)
    requires
        c0 < 0x100000000000000000000000000000,
        c1 < 0x100000000000000000000000000000,
        c2 < 0x100000000000000000000000000000,
        c3 < 0x100000000000000000000000000000,
        c4 < 0x5000000000000000000000000000,
    ensures
        narrow(r),
        limbs(r) == carried(seq![c0 as int, c1 as int, c2 as int, c3 as int, c4 as int]),
        fp::vanishes(value(r) - weigh(c0 as int, c1 as int, c2 as int, c3 as int, c4 as int)),
{
    let m: u128 = 2251799813685247;
    let ghost before: int = weigh(c0 as int, c1 as int, c2 as int, c3 as int, c4 as int);
    let ghost input = seq![c0 as int, c1 as int, c2 as int, c3 as int, c4 as int];
    proof {
        lemma_split128(c0);
    }
    let c1: u128 = c1 + (c0 >> 51);
    let r0: u64 = (c0 & m) as u64;
    proof {
        lemma_split128(c1);
    }
    let c2: u128 = c2 + (c1 >> 51);
    let r1: u64 = (c1 & m) as u64;
    proof {
        lemma_split128(c2);
    }
    let c3: u128 = c3 + (c2 >> 51);
    let r2: u64 = (c2 & m) as u64;
    proof {
        lemma_split128(c3);
    }
    let c4: u128 = c4 + (c3 >> 51);
    let r3: u64 = (c3 & m) as u64;
    proof {
        lemma_split128(c4);
    }
    let carry: u64 = (c4 >> 51) as u64;
    let r4: u64 = (c4 & m) as u64;

    let mut r0: u64 = r0 + carry * 19;
    proof {
        lemma_split64(r0);
    }
    let r1: u64 = r1 + (r0 >> 51);
    r0 = r0 & FE_MASK;
    let r: Fe = [r0, r1, r2, r3, r4];
    proof {
        assert(value(r) == before - carry * fp::p());
        lemma_dropped(before, value(r), carry as int);
        assert(limbs(r) =~= carried(input));
    }
    r
}

/// The product of two field elements.
pub fn fe_mul(a: &Fe, b: &Fe) -> (r: Fe)
    requires
        loose(*a),
        loose(*b),
    ensures
        tight(r),
        narrow(r),
        fp::vanishes(value(r) - value(*a) * value(*b)),
        limbs(r) == product_limbs(limbs(*a), limbs(*b)),
{
    proof {
        lemma_limb_products(*a, *b);
        lemma_folded(limbs(*a), limbs(*b));
    }
    let (a0, a1, a2, a3, a4): (u128, u128, u128, u128, u128) = (
        a[0] as u128,
        a[1] as u128,
        a[2] as u128,
        a[3] as u128,
        a[4] as u128,
    );
    let (b0, b1, b2, b3, b4): (u128, u128, u128, u128, u128) = (
        b[0] as u128,
        b[1] as u128,
        b[2] as u128,
        b[3] as u128,
        b[4] as u128,
    );
    let b1_19: u128 = b1 * 19;
    let b2_19: u128 = b2 * 19;
    let b3_19: u128 = b3 * 19;
    let b4_19: u128 = b4 * 19;

    let c0: u128 = a0 * b0 + a1 * b4_19 + a2 * b3_19 + a3 * b2_19 + a4 * b1_19;
    let c1: u128 = a0 * b1 + a1 * b0 + a2 * b4_19 + a3 * b3_19 + a4 * b2_19;
    let c2: u128 = a0 * b2 + a1 * b1 + a2 * b0 + a3 * b4_19 + a4 * b3_19;
    let c3: u128 = a0 * b3 + a1 * b2 + a2 * b1 + a3 * b0 + a4 * b4_19;
    let c4: u128 = a0 * b4 + a1 * b3 + a2 * b2 + a3 * b1 + a4 * b0;
    let r = fe_carry(c0, c1, c2, c3, c4);
    proof {
        let c = folded(limbs(*a), limbs(*b));
        assert(c =~= seq![c0 as int, c1 as int, c2 as int, c3 as int, c4 as int]);
        let w: int = weigh(c0 as int, c1 as int, c2 as int, c3 as int, c4 as int);
        fp::lemma_vanishes_add(value(r) - w, w - value(*a) * value(*b));
    }
    r
}

/// The square of a field element, with fewer cross terms than the product. The limbs are those of
/// the product; see [`lemma_square_is_product`].
pub fn fe_sq(a: &Fe) -> (r: Fe)
    requires
        loose(*a),
    ensures
        tight(r),
        narrow(r),
        fp::vanishes(value(r) - value(*a) * value(*a)),
        limbs(r) == product_limbs(limbs(*a), limbs(*a)),
{
    proof {
        lemma_limb_products(*a, *a);
        lemma_folded(limbs(*a), limbs(*a));
        lemma_limb_symmetry(*a);
    }
    let a0: u128 = a[0] as u128;
    let a1: u128 = a[1] as u128;
    let a2: u128 = a[2] as u128;
    let a3: u128 = a[3] as u128;
    let a4: u128 = a[4] as u128;
    let a3_19: u128 = 19 * a3;
    let a4_19: u128 = 19 * a4;

    let c0: u128 = a0 * a0 + 2 * (a1 * a4_19 + a2 * a3_19);
    let c1: u128 = a3 * a3_19 + 2 * (a0 * a1 + a2 * a4_19);
    let c2: u128 = a1 * a1 + 2 * (a0 * a2 + a4 * a3_19);
    let c3: u128 = a4 * a4_19 + 2 * (a0 * a3 + a1 * a2);
    let c4: u128 = a2 * a2 + 2 * (a0 * a4 + a1 * a3);
    let r = fe_carry(c0, c1, c2, c3, c4);
    proof {
        let c = folded(limbs(*a), limbs(*a));
        assert(c =~= seq![c0 as int, c1 as int, c2 as int, c3 as int, c4 as int]);
        let w: int = weigh(c0 as int, c1 as int, c2 as int, c3 as int, c4 as int);
        fp::lemma_vanishes_add(value(r) - w, w - value(*a) * value(*a));
    }
    r
}

/// Products of two limbs of the same element commute.
proof fn lemma_limb_symmetry(a: Fe)
    ensures
        forall|i: int, j: int|
            #![trigger a@[i] * a@[j]]
            0 <= i < 5 && 0 <= j < 5 ==> a@[i] * a@[j] == a@[j] * a@[i],
{
    assert forall|i: int, j: int|
        #![trigger a@[i] * a@[j]]
        0 <= i < 5 && 0 <= j < 5 implies a@[i] * a@[j] == a@[j] * a@[i] by {
        lemma_mul_is_commutative(a@[i] as int, a@[j] as int);
    }
}

/// Squaring gives the very limbs of the product of an element with itself.
pub proof fn lemma_square_is_product(a: Fe, square: Fe, prod: Fe)
    requires
        limbs(square) == product_limbs(limbs(a), limbs(a)),
        limbs(prod) == product_limbs(limbs(a), limbs(a)),
    ensures
        square == prod,
{
    lemma_same_limbs(square, prod);
}

/// Squares a field element `k` times.
pub fn fe_pow2k(a: &Fe, k: u32) -> (r: Fe)
    requires
        loose(*a),
    ensures
        loose(r),
        k == 0 ==> r == *a,
        k > 0 ==> tight(r) && narrow(r),
        fp::vanishes(value(r) - pow(value(*a), pow2(k as nat))),
        limbs(r) == squared_limbs(limbs(*a), k as nat),
{
    let mut r = *a;
    let mut i: u32 = 0;
    proof {
        lemma2_to64();
        lemma_pow1(value(*a));
        fp::lemma_vanishes_zero();
    }
    while i < k
        invariant
            i <= k,
            loose(*a),
            loose(r),
            i == 0 ==> r == *a,
            i > 0 ==> tight(r) && narrow(r),
            fp::vanishes(value(r) - pow(value(*a), pow2(i as nat))),
            limbs(r) == squared_limbs(limbs(*a), i as nat),
        decreases k - i,
    {
        let ghost v: int = value(r);
        r = fe_sq(&r);
        proof {
            let w: int = pow(value(*a), pow2(i as nat));
            lemma_pow2_unfold((i + 1) as nat);
            fp::lemma_product_same(v, w, v, w);
            fp::lemma_vanishes_add(value(r) - v * v, v * v - w * w);
            lemma_pow_adds(value(*a), pow2(i as nat), pow2(i as nat));
        }
        i += 1;
    }
    r
}

/// Squaring `j` times and then `k` times is squaring `j + k` times.
proof fn lemma_squared_adds(a: Seq<int>, j: nat, k: nat)
    ensures
        squared_limbs(squared_limbs(a, j), k) == squared_limbs(a, j + k),
    decreases k,
{
    if k > 0 {
        lemma_squared_adds(a, j, (k - 1) as nat);
    }
}

/// Squaring `j` times and then `k` times gives the very limbs of squaring `j + k` times.
pub proof fn lemma_squarings_add(a: Fe, b: Fe, c: Fe, d: Fe, j: nat, k: nat)
    requires
        limbs(b) == squared_limbs(limbs(a), j),
        limbs(c) == squared_limbs(limbs(b), k),
        limbs(d) == squared_limbs(limbs(a), j + k),
    ensures
        c == d,
{
    lemma_squared_adds(limbs(a), j, k);
    lemma_same_limbs(c, d);
}

proof fn lemma_power_product(r: Fe, a: Fe, b: Fe, z: int, e: nat, f: nat)
    requires
        fp::vanishes(value(r) - value(a) * value(b)),
        fp::vanishes(value(a) - pow(z, e)),
        fp::vanishes(value(b) - pow(z, f)),
    ensures
        fp::vanishes(value(r) - pow(z, e + f)),
{
    lemma_pow_adds(z, e, f);
    fp::lemma_product_same(value(a), pow(z, e), value(b), pow(z, f));
    fp::lemma_vanishes_add(
        value(r) - value(a) * value(b),
        value(a) * value(b) - pow(z, e) * pow(z, f),
    );
}

proof fn lemma_power_squares(r: Fe, a: Fe, z: int, e: nat, k: nat)
    requires
        fp::vanishes(value(r) - pow(value(a), pow2(k))),
        fp::vanishes(value(a) - pow(z, e)),
    ensures
        fp::vanishes(value(r) - pow(z, (e * pow2(k)) as nat)),
{
    fp::lemma_vanishes_difference(value(a), pow(z, e));
    modular::lemma_cong_pow(value(a), pow(z, e), pow2(k), fp::p());
    lemma_pow_multiplies(z, e, pow2(k));
    fp::lemma_vanishes_difference(pow(value(a), pow2(k)), pow(pow(z, e), pow2(k)));
    fp::lemma_vanishes_add(
        value(r) - pow(value(a), pow2(k)),
        pow(value(a), pow2(k)) - pow(pow(z, e), pow2(k)),
    );
}

/// The powers of two that the inversion chain steps by.
proof fn lemma_chain_steps()
    ensures
        pow2(5) == 32,
        pow2(10) == 1024,
        pow2(20) == 1048576,
        pow2(50) == 1125899906842624,
        pow2(100) == 1267650600228229401496703205376nat,
{
    lemma2_to64();
    lemma2_to64_rest();
    lemma_pow2_adds(50, 50);
    lemma_chain_product(pow2(50));
}

proof fn lemma_chain_product(a: nat)
    requires
        a == 1125899906842624,
    ensures
        a * a == 1267650600228229401496703205376int,
{
    lemma_mul_is_commutative(a as int, 1125899906842624);
}

/// The inverse of a field element, and zero for zero: the power `2^255 - 21`.
pub fn fe_invert(z: &Fe) -> (r: Fe)
    requires
        loose(*z),
    ensures
        tight(r),
        narrow(r),
        value(r) % fp::p() == fp::inverse(value(*z)),
{
    let t0 = fe_sq(z);
    let t0_sq = fe_sq(&t0);
    let t1 = fe_sq(&t0_sq);
    let t2 = fe_mul(z, &t1);
    let t3 = fe_mul(&t0, &t2);
    let t4 = fe_sq(&t3);
    let t5 = fe_mul(&t2, &t4);
    let t6 = fe_pow2k(&t5, 5);
    let t7 = fe_mul(&t6, &t5);
    let t8 = fe_pow2k(&t7, 10);
    let t9 = fe_mul(&t8, &t7);
    let t10 = fe_pow2k(&t9, 20);
    let t11 = fe_mul(&t10, &t9);
    let t12 = fe_pow2k(&t11, 10);
    let t13 = fe_mul(&t12, &t7);
    let t14 = fe_pow2k(&t13, 50);
    let t15 = fe_mul(&t14, &t13);
    let t16 = fe_pow2k(&t15, 100);
    let t17 = fe_mul(&t16, &t15);
    let t18 = fe_pow2k(&t17, 50);
    let t19 = fe_mul(&t18, &t13);
    let t20 = fe_pow2k(&t19, 5);
    let r = fe_mul(&t20, &t3);
    proof {
        let v: int = value(*z);
        lemma_chain_steps();
        lemma_pow1(v);
        fp::lemma_vanishes_zero();
        lemma_power_product(t0, *z, *z, v, 1nat, 1nat);
        lemma_power_product(t0_sq, t0, t0, v, 2nat, 2nat);
        lemma_power_product(t1, t0_sq, t0_sq, v, 4nat, 4nat);
        lemma_power_product(t2, *z, t1, v, 1nat, 8nat);
        lemma_power_product(t3, t0, t2, v, 2nat, 9nat);
        lemma_power_product(t4, t3, t3, v, 11nat, 11nat);
        lemma_power_product(t5, t2, t4, v, 9nat, 22nat);
        lemma_power_squares(t6, t5, v, 31nat, 5);
        lemma_power_product(t7, t6, t5, v, 992nat, 31nat);
        lemma_power_squares(t8, t7, v, 1023nat, 10);
        lemma_power_product(t9, t8, t7, v, 1047552nat, 1023nat);
        lemma_power_squares(t10, t9, v, 1048575nat, 20);
        lemma_power_product(t11, t10, t9, v, 1099510579200nat, 1048575nat);
        lemma_power_squares(t12, t11, v, 1099511627775nat, 10);
        lemma_power_product(t13, t12, t7, v, 1125899906841600nat, 1023nat);
        lemma_power_squares(t14, t13, v, 1125899906842623nat, 50);
        lemma_power_product(t15, t14, t13, v, 1267650600228228275596796362752nat,
            1125899906842623nat);
        lemma_power_squares(t16, t15, v, 1267650600228229401496703205375nat, 100);
        lemma_power_product(t17, t16, t15, v,
            1606938044258990275541962092339894951921974764381296132096000nat,
            1267650600228229401496703205375nat);
        lemma_power_squares(t18, t17, v,
            1606938044258990275541962092341162602522202993782792835301375nat, 50);
        lemma_power_product(t19, t18, t13, v,
            1809251394333065553493296640760748560207343510400633813116523624223735808000nat,
            1125899906842623nat);
        lemma_power_squares(t20, t19, v,
            1809251394333065553493296640760748560207343510400633813116524750123642650623nat, 5);
        lemma_power_product(r, t20, t3, v,
            57896044618658097711785492504343953926634992332820282019728792003956564819936nat,
            11nat);
        fp::lemma_vanishes_difference(value(r), pow(v, (fp::p() - 2) as nat));
        reveal(fp::inverse);
    }
    r
}

/// Limb 0 from the bytes that hold it.
proof fn lemma_limb_bytes_0(l: u64)
    requires
        l < 0x8000000000000,
    ensures
        l == (l as u8) + 256 * ((l >> 8) as u8) + 65536 * ((l >> 16) as u8) + 16777216
            * ((l >> 24) as u8) + 4294967296 * ((l >> 32) as u8) + 1099511627776
            * ((l >> 40) as u8) + 281474976710656 * (l >> 48),
{
    assert(l == (l as u8) + 256 * ((l >> 8) as u8) + 65536 * ((l >> 16) as u8) + 16777216
        * ((l >> 24) as u8) + 4294967296 * ((l >> 32) as u8) + 1099511627776
        * ((l >> 40) as u8) + 281474976710656 * (l >> 48)) by (bit_vector)
        requires
            l < 0x8000000000000,
    ;
}

/// Limb 1 from the bytes that hold it.
proof fn lemma_limb_bytes_1(l: u64)
    requires
        l < 0x8000000000000,
    ensures
        l == l % 32 + 32 * ((l >> 5) as u8) + 8192 * ((l >> 13) as u8) + 2097152
            * ((l >> 21) as u8) + 536870912 * ((l >> 29) as u8) + 137438953472
            * ((l >> 37) as u8) + 35184372088832 * (l >> 45),
{
    assert(l == l % 32 + 32 * ((l >> 5) as u8) + 8192 * ((l >> 13) as u8) + 2097152
        * ((l >> 21) as u8) + 536870912 * ((l >> 29) as u8) + 137438953472 * ((l >> 37) as u8)
        + 35184372088832 * (l >> 45)) by (bit_vector)
        requires
            l < 0x8000000000000,
    ;
}

/// Limb 2 from the bytes that hold it.
proof fn lemma_limb_bytes_2(l: u64)
    requires
        l < 0x8000000000000,
    ensures
        l == l % 4 + 4 * ((l >> 2) as u8) + 1024 * ((l >> 10) as u8) + 262144
            * ((l >> 18) as u8) + 67108864 * ((l >> 26) as u8) + 17179869184
            * ((l >> 34) as u8) + 4398046511104 * ((l >> 42) as u8) + 1125899906842624 * (l >> 50),
{
    assert(l == l % 4 + 4 * ((l >> 2) as u8) + 1024 * ((l >> 10) as u8) + 262144
        * ((l >> 18) as u8) + 67108864 * ((l >> 26) as u8) + 17179869184 * ((l >> 34) as u8)
        + 4398046511104 * ((l >> 42) as u8) + 1125899906842624 * (l >> 50)) by (bit_vector)
        requires
            l < 0x8000000000000,
    ;
}

/// Limb 3 from the bytes that hold it.
proof fn lemma_limb_bytes_3(l: u64)
    requires
        l < 0x8000000000000,
    ensures
        l == l % 128 + 128 * ((l >> 7) as u8) + 32768 * ((l >> 15) as u8) + 8388608
            * ((l >> 23) as u8) + 2147483648 * ((l >> 31) as u8) + 549755813888
            * ((l >> 39) as u8) + 140737488355328 * (l >> 47),
{
    assert(l == l % 128 + 128 * ((l >> 7) as u8) + 32768 * ((l >> 15) as u8) + 8388608
        * ((l >> 23) as u8) + 2147483648 * ((l >> 31) as u8) + 549755813888 * ((l >> 39) as u8)
        + 140737488355328 * (l >> 47)) by (bit_vector)
        requires
            l < 0x8000000000000,
    ;
}

/// Limb 4 from the bytes that hold it.
proof fn lemma_limb_bytes_4(l: u64)
    requires
        l < 0x8000000000000,
    ensures
        l == l % 16 + 16 * ((l >> 4) as u8) + 4096 * ((l >> 12) as u8) + 1048576
            * ((l >> 20) as u8) + 268435456 * ((l >> 28) as u8) + 68719476736
            * ((l >> 36) as u8) + 17592186044416 * ((l >> 44) as u8),
{
    assert(l == l % 16 + 16 * ((l >> 4) as u8) + 4096 * ((l >> 12) as u8) + 1048576
        * ((l >> 20) as u8) + 268435456 * ((l >> 28) as u8) + 68719476736 * ((l >> 36) as u8)
        + 17592186044416 * ((l >> 44) as u8)) by (bit_vector)
        requires
            l < 0x8000000000000,
    ;
}

/// Byte 6 is shared by two limbs.
proof fn lemma_shared_byte_6(l: u64, h: u64)
    requires
        l < 0x8000000000000,
    ensures
        ((l >> 48) | (h << 3)) as u8 == (l >> 48) + 8 * (h % 32),
{
    assert(((l >> 48) | (h << 3)) as u8 == (l >> 48) + 8 * (h % 32)) by (bit_vector)
        requires
            l < 0x8000000000000,
    ;
}

/// Byte 12 is shared by two limbs.
proof fn lemma_shared_byte_12(l: u64, h: u64)
    requires
        l < 0x8000000000000,
    ensures
        ((l >> 45) | (h << 6)) as u8 == (l >> 45) + 64 * (h % 4),
{
    assert(((l >> 45) | (h << 6)) as u8 == (l >> 45) + 64 * (h % 4)) by (bit_vector)
        requires
            l < 0x8000000000000,
    ;
}

/// Byte 19 is shared by two limbs.
proof fn lemma_shared_byte_19(l: u64, h: u64)
    requires
        l < 0x8000000000000,
    ensures
        ((l >> 50) | (h << 1)) as u8 == (l >> 50) + 2 * (h % 128),
{
    assert(((l >> 50) | (h << 1)) as u8 == (l >> 50) + 2 * (h % 128)) by (bit_vector)
        requires
            l < 0x8000000000000,
    ;
}

/// Byte 25 is shared by two limbs.
proof fn lemma_shared_byte_25(l: u64, h: u64)
    requires
        l < 0x8000000000000,
    ensures
        ((l >> 47) | (h << 4)) as u8 == (l >> 47) + 16 * (h % 16),
{
    assert(((l >> 47) | (h << 4)) as u8 == (l >> 47) + 16 * (h % 16)) by (bit_vector)
        requires
            l < 0x8000000000000,
    ;
}

/// The limbs of the residue of a field element.
fn fe_canonical(f: &Fe) -> (r: Fe)
    ensures
        below(r, 0x8000000000000),
        value(r) == value(*f) % fp::p(),
{
    let mut l = fe_reduce(*f);
    let ghost v: int = value(l);
    proof {
        lemma_split64((l@[0] + 19) as u64);
    }
    let mut q: u64 = (l[0] + 19) >> 51;
    proof {
        lemma_split64((l@[1] + q) as u64);
    }
    q = (l[1] + q) >> 51;
    proof {
        lemma_split64((l@[2] + q) as u64);
    }
    q = (l[2] + q) >> 51;
    proof {
        lemma_split64((l@[3] + q) as u64);
    }
    q = (l[3] + q) >> 51;
    proof {
        lemma_split64((l@[4] + q) as u64);
    }
    q = (l[4] + q) >> 51;
    proof {
        assert(q == (v + 19) / 0x8000000000000000000000000000000000000000000000000000000000000000int);
        assert(q <= 1);
    }
    l[0] = l[0] + 19 * q;
    proof {
        lemma_split64(l@[0]);
    }
    l[1] = l[1] + (l[0] >> 51);
    l[0] = l[0] & FE_MASK;
    proof {
        lemma_split64(l@[1]);
    }
    l[2] = l[2] + (l[1] >> 51);
    l[1] = l[1] & FE_MASK;
    proof {
        lemma_split64(l@[2]);
    }
    l[3] = l[3] + (l[2] >> 51);
    l[2] = l[2] & FE_MASK;
    proof {
        lemma_split64(l@[3]);
    }
    l[4] = l[4] + (l[3] >> 51);
    l[3] = l[3] & FE_MASK;
    proof {
        lemma_split64(l@[4]);
    }
    l[4] = l[4] & FE_MASK;
    proof {
        assert(value(l) == v - q * fp::p());
        assert(0 <= value(l) < fp::p());
        lemma_dropped(v, value(l), q as int);
        fp::lemma_vanishes_add(value(l) - v, v - value(*f));
        fp::lemma_vanishes_difference(value(l), value(*f));
        modular::lemma_small(value(l), fp::p());
    }
    l
}

/// The bytes of limbs of 51 bits.
fn fe_pack(l: &Fe) -> (s: [u8; 32])
    requires
        below(*l, 0x8000000000000),
    ensures
        bytes::le_value(s@) == value(*l),
{
    let s: [u8; 32] = [
        #[verifier::truncate] (l[0] as u8),
        #[verifier::truncate] ((l[0] >> 8) as u8),
        #[verifier::truncate] ((l[0] >> 16) as u8),
        #[verifier::truncate] ((l[0] >> 24) as u8),
        #[verifier::truncate] ((l[0] >> 32) as u8),
        #[verifier::truncate] ((l[0] >> 40) as u8),
        #[verifier::truncate] (((l[0] >> 48) | (l[1] << 3)) as u8),
        #[verifier::truncate] ((l[1] >> 5) as u8),
        #[verifier::truncate] ((l[1] >> 13) as u8),
        #[verifier::truncate] ((l[1] >> 21) as u8),
        #[verifier::truncate] ((l[1] >> 29) as u8),
        #[verifier::truncate] ((l[1] >> 37) as u8),
        #[verifier::truncate] (((l[1] >> 45) | (l[2] << 6)) as u8),
        #[verifier::truncate] ((l[2] >> 2) as u8),
        #[verifier::truncate] ((l[2] >> 10) as u8),
        #[verifier::truncate] ((l[2] >> 18) as u8),
        #[verifier::truncate] ((l[2] >> 26) as u8),
        #[verifier::truncate] ((l[2] >> 34) as u8),
        #[verifier::truncate] ((l[2] >> 42) as u8),
        #[verifier::truncate] (((l[2] >> 50) | (l[3] << 1)) as u8),
        #[verifier::truncate] ((l[3] >> 7) as u8),
        #[verifier::truncate] ((l[3] >> 15) as u8),
        #[verifier::truncate] ((l[3] >> 23) as u8),
        #[verifier::truncate] ((l[3] >> 31) as u8),
        #[verifier::truncate] ((l[3] >> 39) as u8),
        #[verifier::truncate] (((l[3] >> 47) | (l[4] << 4)) as u8),
        #[verifier::truncate] ((l[4] >> 4) as u8),
        #[verifier::truncate] ((l[4] >> 12) as u8),
        #[verifier::truncate] ((l[4] >> 20) as u8),
        #[verifier::truncate] ((l[4] >> 28) as u8),
        #[verifier::truncate] ((l[4] >> 36) as u8),
        #[verifier::truncate] ((l[4] >> 44) as u8),
    ];
    proof {
        lemma_limb_bytes_0(l@[0]);
        lemma_limb_bytes_1(l@[1]);
        lemma_limb_bytes_2(l@[2]);
        lemma_limb_bytes_3(l@[3]);
        lemma_limb_bytes_4(l@[4]);
        lemma_shared_byte_6(l@[0], l@[1]);
        lemma_shared_byte_12(l@[1], l@[2]);
        lemma_shared_byte_19(l@[2], l@[3]);
        lemma_shared_byte_25(l@[3], l@[4]);
        bytes::lemma_le_value_32(s@);
    }
    s
}

/// The canonical encoding of a field element: its residue, little-endian.
pub fn fe_to_bytes(f: &Fe) -> (s: [u8; 32])
    ensures
        bytes::le_value(s@) == value(*f) % fp::p(),
{
    fe_pack(&fe_canonical(f))
}

/// A field element times its inverse is one: the encoding of the product is that of one.
pub proof fn lemma_invert_law(x: Fe, inverse: Fe, prod: Fe)
    requires
        !fp::vanishes(value(x)),
        value(inverse) % fp::p() == fp::inverse(value(x)),
        fp::vanishes(value(prod) - value(x) * value(inverse)),
    ensures
        value(prod) % fp::p() == 1,
{
    let v: int = value(x);
    let k: int = fp::inverse(v);
    fp::lemma_inverse(v);
    modular::lemma_cong_inner(v, value(inverse), fp::p());
    fp::lemma_vanishes_difference(value(prod), v * value(inverse));
    fp::lemma_vanishes_difference(v * k, 1);
    modular::lemma_small(1, fp::p());
}

/// The product of the first `n` field elements.
pub open spec fn product(s: Seq<Fe>, n: int) -> int
    decreases n,
{
    if n <= 0 {
        1
    } else {
        product(s, n - 1) * value(s[n - 1])
    }
}

/// The product of the field elements from `i` up to `n`.
spec fn product_from(s: Seq<Fe>, i: int, n: int) -> int
    decreases n - i,
{
    if i >= n {
        1
    } else {
        value(s[i]) * product_from(s, i + 1, n)
    }
}

/// None of the first `n` field elements is zero.
pub open spec fn all_units(s: Seq<Fe>, n: int) -> bool {
    forall|i: int| 0 <= i < n ==> !fp::vanishes(value(#[trigger] s[i]))
}

proof fn lemma_product_split(s: Seq<Fe>, i: int, n: int)
    requires
        0 <= i <= n,
    ensures
        product(s, i) * product_from(s, i, n) == product(s, n),
    decreases n - i,
{
    if i == n {
        lemma_mul_basics(product(s, i));
    } else {
        lemma_product_split(s, i + 1, n);
        lemma_mul_is_associative(product(s, i), value(s[i]), product_from(s, i + 1, n));
    }
}

proof fn lemma_product_units(s: Seq<Fe>, n: int)
    requires
        0 <= n,
    ensures
        all_units(s, n) <==> !fp::vanishes(product(s, n)),
    decreases n,
{
    if n == 0 {
        fp::lemma_small_nonzero(1);
    } else {
        lemma_product_units(s, n - 1);
        if fp::vanishes(product(s, n)) {
            fp::lemma_vanishes_euclid(product(s, n - 1), value(s[n - 1]));
        } else {
            if fp::vanishes(product(s, n - 1)) {
                fp::lemma_vanishes_mul(value(s[n - 1]), product(s, n - 1));
            }
            if fp::vanishes(value(s[n - 1])) {
                fp::lemma_vanishes_mul(product(s, n - 1), value(s[n - 1]));
            }
        }
    }
}

/// What the second pass of the batch inversion writes at `i`.
proof fn lemma_batch_element(s: Seq<Fe>, i: int, n: int, acc: int, pre: int, inv: int)
    requires
        0 <= i < n,
        fp::vanishes(acc - fp::inverse(product(s, n)) * product_from(s, i + 1, n)),
        fp::vanishes(pre - product(s, i)),
        fp::vanishes(inv - acc * pre),
    ensures
        inv % fp::p() == if all_units(s, n) {
            fp::inverse(value(s[i]))
        } else {
            0
        },
{
    let total: int = product(s, n);
    let k: int = fp::inverse(total);
    let z: int = value(s[i]);
    let rest: int = product_from(s, i + 1, n);
    lemma_product_units(s, n);
    fp::lemma_product_same(acc, k * rest, pre, product(s, i));
    fp::lemma_vanishes_add(inv - acc * pre, acc * pre - (k * rest) * product(s, i));
    if fp::vanishes(total) {
        fp::lemma_inverse_zero(total);
        lemma_mul_basics(rest);
        lemma_mul_basics(product(s, i));
        fp::lemma_vanishes_difference(inv, 0);
        modular::lemma_small(0, fp::p());
    } else {
        fp::lemma_inverse(total);
        lemma_product_split(s, i, n);
        ring::lemma_batch(k, rest, product(s, i), z);
        let w: int = (k * rest) * product(s, i);
        assert(z * w == total * k);
        fp::lemma_vanishes_mul(z, inv - w);
        lemma_mul_is_distributive_sub(z, inv, w);
        fp::lemma_vanishes_add(z * inv - z * w, z * w - 1);
        fp::lemma_inverse_unique(z, inv);
    }
}

/// Inverts the first `n` field elements in place with a single inversion.
///
/// `scratch` receives the products of the elements before each position. If any of the `n`
/// elements is zero, all of them become zero.
pub fn fe_batch_invert(zs: &mut [Fe], scratch: &mut [Fe], n: usize)
    requires
        n <= old(zs)@.len(),
        n <= old(scratch)@.len(),
        forall|i: int| 0 <= i < n ==> loose(#[trigger] old(zs)@[i]),
    ensures
        final(zs)@.len() == old(zs)@.len(),
        forall|i: int|
            0 <= i < n ==> narrow(#[trigger] final(zs)@[i]) && value(final(zs)@[i]) % fp::p() == (
            if all_units(old(zs)@, n as int) {
                fp::inverse(value(old(zs)@[i]))
            } else {
                0
            }),
        forall|i: int| n <= i < old(zs)@.len() ==> #[trigger] final(zs)@[i] == old(zs)@[i],
        final(scratch)@.len() == old(scratch)@.len(),
        forall|i: int|
            0 <= i < n ==> narrow(#[trigger] final(scratch)@[i]) && fp::vanishes(
                value(final(scratch)@[i]) - product(old(zs)@, i),
            ),
        forall|i: int|
            n <= i < old(scratch)@.len() ==> #[trigger] final(scratch)@[i] == old(scratch)@[i],
{
    let ghost zs0 = zs@;
    let ghost scratch0 = scratch@;
    let mut acc = FE_ONE;
    let mut i: usize = 0;
    proof {
        fp::lemma_vanishes_zero();
    }
    while i < n
        invariant
            i <= n,
            n <= zs@.len(),
            n <= scratch@.len(),
            zs@ == zs0,
            scratch@.len() == scratch0.len(),
            forall|k: int| 0 <= k < n ==> loose(#[trigger] zs0[k]),
            narrow(acc),
            fp::vanishes(value(acc) - product(zs0, i as int)),
            forall|k: int|
                0 <= k < i ==> narrow(#[trigger] scratch@[k]) && fp::vanishes(
                    value(scratch@[k]) - product(zs0, k),
                ),
            forall|k: int| n <= k < scratch0.len() ==> #[trigger] scratch@[k] == scratch0[k],
        decreases n - i,
    {
        scratch[i] = acc;
        let ghost v: int = value(acc);
        acc = fe_mul(&acc, &zs[i]);
        proof {
            let z: int = value(zs0[i as int]);
            fp::lemma_vanishes_zero();
            fp::lemma_product_same(v, product(zs0, i as int), z, z);
            fp::lemma_vanishes_add(value(acc) - v * z, v * z - product(zs0, i as int) * z);
        }
        i += 1;
    }
    let ghost total: int = product(zs0, n as int);
    let ghost k0: int = fp::inverse(total);
    proof {
        fp::lemma_inverse_same(value(acc), total);
    }
    acc = fe_invert(&acc);
    proof {
        lemma_mul_basics(k0);
        fp::lemma_remainder(value(acc));
    }
    let mut i: usize = n;
    while i > 0
        invariant
            i <= n,
            n <= zs@.len(),
            n <= scratch@.len(),
            zs@.len() == zs0.len(),
            scratch@.len() == scratch0.len(),
            forall|k: int| 0 <= k < n ==> loose(#[trigger] zs0[k]),
            k0 == fp::inverse(product(zs0, n as int)),
            narrow(acc),
            fp::vanishes(value(acc) - k0 * product_from(zs0, i as int, n as int)),
            forall|k: int| 0 <= k < i ==> #[trigger] zs@[k] == zs0[k],
            forall|k: int|
                i <= k < n ==> narrow(#[trigger] zs@[k]) && value(zs@[k]) % fp::p() == (if all_units(
                    zs0,
                    n as int,
                ) {
                    fp::inverse(value(zs0[k]))
                } else {
                    0
                }),
            forall|k: int| n <= k < zs0.len() ==> #[trigger] zs@[k] == zs0[k],
            forall|k: int|
                0 <= k < n ==> narrow(#[trigger] scratch@[k]) && fp::vanishes(
                    value(scratch@[k]) - product(zs0, k),
                ),
            forall|k: int| n <= k < scratch0.len() ==> #[trigger] scratch@[k] == scratch0[k],
        decreases i,
    {
        i -= 1;
        let inv = fe_mul(&acc, &scratch[i]);
        let ghost v: int = value(acc);
        proof {
            lemma_batch_element(
                zs0,
                i as int,
                n as int,
                v,
                value(scratch@[i as int]),
                value(inv),
            );
        }
        acc = fe_mul(&acc, &zs[i]);
        proof {
            let z: int = value(zs0[i as int]);
            let rest: int = product_from(zs0, i as int + 1, n as int);
            fp::lemma_vanishes_zero();
            fp::lemma_product_same(v, k0 * rest, z, z);
            fp::lemma_vanishes_add(value(acc) - v * z, v * z - (k0 * rest) * z);
            lemma_mul_is_associative(k0, rest, z);
            lemma_mul_is_commutative(rest, z);
        }
        zs[i] = inv;
    }
}

} // verus!
