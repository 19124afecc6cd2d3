use curve25519_dalek::constants::{ED25519_BASEPOINT_POINT, ED25519_BASEPOINT_TABLE};
use curve25519_dalek::edwards::EdwardsPoint;
use curve25519_dalek::scalar::Scalar;
use curve25519_dalek::traits::Identity;
use rand::rngs::StdRng;
use rand::{RngCore, SeedableRng};
use tor_v3_vanity::bytes::add_u256;
use tor_v3_vanity::field::{fe_invert, fe_mul, fe_to_bytes};
use tor_v3_vanity::point::{
    base_cached, basepoint, compress, encode_affine, identity, pt_add, pt_add_base, scalar_mul_base,
    Pt,
};

/// The order of the base point, little-endian.
const ORDER: [u8; 32] = [
    0xed, 0xd3, 0xf5, 0x5c, 0x1a, 0x63, 0x12, 0x58, 0xd6, 0x9c, 0xf7, 0xa2, 0xde, 0xf9, 0xde, 0x14, 0,
    0, 0, 0, 0, 0, 0, 0, 0, 0, 0, 0, 0, 0, 0, 0x10,
];

fn reference(bytes: [u8; 32]) -> [u8; 32] {
    let s = Scalar::from_bytes_mod_order(bytes);
    (&s * &ED25519_BASEPOINT_TABLE).compress().to_bytes()
}

fn random_bytes(rng: &mut StdRng) -> [u8; 32] {
    let mut b = [0u8; 32];
    rng.fill_bytes(&mut b);
    b
}

#[test]
fn constants_agree() {
    assert_eq!(compress(&basepoint()), ED25519_BASEPOINT_POINT.compress().to_bytes());
    assert_eq!(compress(&identity()), EdwardsPoint::identity().compress().to_bytes());
}

#[test]
fn scalar_multiples_agree() {
    let mut rng = StdRng::seed_from_u64(5);
    for _ in 0..30 {
        let b = random_bytes(&mut rng);
        assert_eq!(compress(&scalar_mul_base(&b)), reference(b));
    }
    let mut one = [0u8; 32];
    one[0] = 1;
    let mut minus_one = ORDER;
    minus_one[0] -= 1;
    for b in [[0u8; 32], one, ORDER, minus_one, [0xffu8; 32]] {
        assert_eq!(compress(&scalar_mul_base(&b)), reference(b));
    }
}

#[test]
fn order_times_base_is_neutral() {
    assert_eq!(compress(&scalar_mul_base(&ORDER)), compress(&identity()));
}

#[test]
fn reduction_keeps_the_multiple() {
    let mut rng = StdRng::seed_from_u64(6);
    for _ in 0..10 {
        let b = random_bytes(&mut rng);
        let reduced = Scalar::from_bytes_mod_order(b).to_bytes();
        assert_eq!(compress(&scalar_mul_base(&b)), compress(&scalar_mul_base(&reduced)));
    }
}

#[test]
fn walk_lands_on_the_multiples() {
    let mut rng = StdRng::seed_from_u64(7);
    let a = random_bytes(&mut rng);
    let a = Scalar::from_bytes_mod_order(a).to_bytes();
    let b = basepoint();
    let (b_sub, b_add, b_d2t) = base_cached();
    let mut by_sum = scalar_mul_base(&a);
    let mut by_step = scalar_mul_base(&a);
    for k in 0..1000u64 {
        let scalar = Scalar::from_bytes_mod_order(a) + Scalar::from(k);
        let expected = (&scalar * &ED25519_BASEPOINT_TABLE).compress().to_bytes();
        assert_eq!(compress(&by_sum), expected);
        assert_eq!(compress(&by_step), expected);
        by_sum = pt_add(&by_sum, &b);
        by_step = pt_add_base(&by_step, &b_sub, &b_add, &b_d2t);
    }
}

#[test]
fn adding_the_base_point_has_the_coordinates_of_addition() {
    let mut rng = StdRng::seed_from_u64(31);
    let (b_sub, b_add, b_d2t) = base_cached();
    let mut limbs = || {
        let mut f = [0u64; 5];
        for l in f.iter_mut() {
            *l = rng.next_u64() >> 10;
        }
        f
    };
    // the coordinates agree for points of the curve and for anything else
    let mut points = vec![identity(), basepoint(), scalar_mul_base(&[0x5a; 32])];
    for _ in 0..20 {
        points.push(Pt { x: limbs(), y: limbs(), z: limbs(), t: limbs() });
    }
    for p in &points {
        let short = pt_add_base(p, &b_sub, &b_add, &b_d2t);
        let long = pt_add(p, &basepoint());
        for (f, g) in
            [(short.x, long.x), (short.y, long.y), (short.z, long.z), (short.t, long.t)]
        {
            assert_eq!(fe_to_bytes(&f), fe_to_bytes(&g));
            assert!(f.iter().chain(g.iter()).all(|l| *l < 1 << 52));
        }
        assert_eq!(compress(&short), compress(&long));
    }
}

#[test]
fn affine_coordinates_are_encoded() {
    let p = scalar_mul_base(&[0x33; 32]);
    let zinv = fe_invert(&p.z);
    let (x, y) = (fe_mul(&p.x, &zinv), fe_mul(&p.y, &zinv));
    assert_eq!(encode_affine(&x, &y), reference([0x33; 32]));
    let mut odd = [0u8; 32];
    odd[0] = 2;
    odd[31] = 0x80;
    assert_eq!(encode_affine(&[3, 0, 0, 0, 0], &[2, 0, 0, 0, 0]), odd);
}

#[test]
fn addition_covers_doubling_and_inverses() {
    let b = basepoint();
    let two = pt_add(&b, &b);
    let mut n = [0u8; 32];
    n[0] = 2;
    assert_eq!(compress(&two), reference(n));
    let mut minus_one = ORDER;
    minus_one[0] -= 1;
    assert_eq!(compress(&pt_add(&scalar_mul_base(&minus_one), &b)), compress(&identity()));
    assert_eq!(compress(&pt_add(&b, &identity())), compress(&b));
    assert_eq!(compress(&pt_add(&identity(), &identity())), compress(&identity()));
}

#[test]
fn addition_is_associative_and_commutative() {
    let mut rng = StdRng::seed_from_u64(8);
    let (p, q, r) = (
        scalar_mul_base(&random_bytes(&mut rng)),
        scalar_mul_base(&random_bytes(&mut rng)),
        scalar_mul_base(&random_bytes(&mut rng)),
    );
    assert_eq!(compress(&pt_add(&pt_add(&p, &q), &r)), compress(&pt_add(&p, &pt_add(&q, &r))));
    assert_eq!(compress(&pt_add(&p, &q)), compress(&pt_add(&q, &p)));
}

#[test]
fn adding_to_256_bits() {
    let zero = [0u8; 32];
    let mut one = zero;
    one[0] = 1;
    assert_eq!(add_u256(&zero, 1), one);
    let mut low = zero;
    low[..8].copy_from_slice(&u64::MAX.to_le_bytes());
    let mut carried = zero;
    carried[8] = 1;
    assert_eq!(add_u256(&low, 1), carried);
    assert_eq!(add_u256(&[0xff; 32], 1), zero);
    let mut six = zero;
    six[0] = 6;
    assert_eq!(add_u256(&[0xff; 32], 7), six);
    let mut through = [0xffu8; 32];
    through[31] = 0;
    let mut next = zero;
    next[31] = 1;
    assert_eq!(add_u256(&through, 1), next);
    let mut a = zero;
    a[0] = 0x34;
    a[1] = 0x12;
    let mut b = zero;
    b[..8].copy_from_slice(&(0x1234u64 + 0x0102_0304_0506_0708).to_le_bytes());
    assert_eq!(add_u256(&a, 0x0102_0304_0506_0708), b);
}
