use rand::rngs::StdRng;
use rand::{RngCore, SeedableRng};
use tor_v3_vanity::field::{
    fe_add, fe_batch_invert, fe_invert, fe_mul, fe_pow2k, fe_reduce, fe_sq, fe_sub, fe_to_bytes, Fe,
    FE_MASK, FE_ONE,
};

fn fe_from_bytes(b: &[u8; 32]) -> Fe {
    let load8 = |i: usize| -> u64 {
        let mut x = 0u64;
        for j in 0..8 {
            x |= (b[i + j] as u64) << (8 * j);
        }
        x
    };
    [
        load8(0) & FE_MASK,
        (load8(6) >> 3) & FE_MASK,
        (load8(12) >> 6) & FE_MASK,
        (load8(19) >> 1) & FE_MASK,
        (load8(24) >> 12) & FE_MASK,
    ]
}

fn random_fe(rng: &mut StdRng) -> Fe {
    let mut b = [0u8; 32];
    rng.fill_bytes(&mut b);
    fe_from_bytes(&b)
}

fn small(n: u64) -> Fe {
    [n, 0, 0, 0, 0]
}

fn bytes_of(n: u64) -> [u8; 32] {
    let mut b = [0u8; 32];
    b[..8].copy_from_slice(&n.to_le_bytes());
    b
}

/// The limbs of the prime itself.
fn prime() -> Fe {
    [FE_MASK - 18, FE_MASK, FE_MASK, FE_MASK, FE_MASK]
}

#[test]
fn inverse_times_element_is_one() {
    let mut rng = StdRng::seed_from_u64(1);
    for _ in 0..1000 {
        let x = random_fe(&mut rng);
        let prod = fe_mul(&x, &fe_invert(&x));
        assert_eq!(fe_to_bytes(&prod), fe_to_bytes(&FE_ONE));
    }
}

#[test]
fn inverse_of_zero_is_zero() {
    assert_eq!(fe_to_bytes(&fe_invert(&small(0))), [0u8; 32]);
    assert_eq!(fe_to_bytes(&fe_invert(&prime())), [0u8; 32]);
}

/// Random limbs below `2^54`.
fn loose_fe(rng: &mut StdRng) -> Fe {
    let mut f = [0u64; 5];
    for l in f.iter_mut() {
        *l = rng.next_u64() >> 10;
    }
    f
}

#[test]
fn squares_have_the_limbs_of_products() {
    let mut rng = StdRng::seed_from_u64(21);
    let top = [(1u64 << 54) - 1; 5];
    assert_eq!(fe_sq(&top), fe_mul(&top, &top));
    for _ in 0..500 {
        let a = loose_fe(&mut rng);
        assert_eq!(fe_sq(&a), fe_mul(&a, &a));
    }
}

#[test]
fn squarings_add_up() {
    let mut rng = StdRng::seed_from_u64(22);
    for (j, k) in [(0, 0), (0, 3), (4, 0), (1, 1), (5, 10), (20, 7)] {
        let a = loose_fe(&mut rng);
        assert_eq!(fe_pow2k(&fe_pow2k(&a, j), k), fe_pow2k(&a, j + k));
    }
}

#[test]
fn limbs_stay_within_their_bounds() {
    let (b, c) = (1u64 << 51, 1u64 << 13);
    let mut rng = StdRng::seed_from_u64(23);
    let mut loose: Vec<Fe> = (0..200).map(|_| loose_fe(&mut rng)).collect();
    loose.push([(1u64 << 54) - 1; 5]);
    for f in &loose {
        let r = fe_mul(f, &loose[0]);
        assert!(r[0] < b && r[1] < b + c && r[2] < b && r[3] < b && r[4] < b);
    }
    let r = fe_reduce([u64::MAX; 5]);
    assert_eq!(r, [b - 1 + 19 * (c - 1), b - 1 + c - 1, b + c - 2, b + c - 2, b + c - 2]);
}

#[test]
fn small_products_and_sums() {
    assert_eq!(fe_to_bytes(&fe_mul(&small(6), &small(7))), bytes_of(42));
    assert_eq!(fe_to_bytes(&fe_add(&small(6), &small(7))), bytes_of(13));
    assert_eq!(fe_to_bytes(&fe_sub(&small(7), &small(6))), bytes_of(1));
    assert_eq!(fe_to_bytes(&fe_sq(&small(1 << 20))), bytes_of(1 << 40));
    assert_eq!(fe_to_bytes(&fe_pow2k(&small(3), 3)), bytes_of(6561));
    assert_eq!(fe_pow2k(&small(3), 0), small(3));
}

#[test]
fn minus_one_has_the_top_residue() {
    let mut minus_one = [0xffu8; 32];
    minus_one[0] = 0xec;
    minus_one[31] = 0x7f;
    assert_eq!(fe_to_bytes(&fe_sub(&small(0), &small(1))), minus_one);
    let m = fe_sub(&small(0), &small(1));
    assert_eq!(fe_to_bytes(&fe_mul(&m, &m)), bytes_of(1));
    assert_eq!(fe_to_bytes(&fe_sq(&m)), bytes_of(1));
}

#[test]
fn encoding_is_canonical() {
    assert_eq!(fe_to_bytes(&prime()), [0u8; 32]);
    let mut p1 = prime();
    p1[0] += 1;
    assert_eq!(fe_to_bytes(&p1), bytes_of(1));
    // limbs of all ones are 2^255 - 1, which is 18 modulo the prime
    assert_eq!(fe_to_bytes(&[FE_MASK; 5]), bytes_of(18));
    // limbs that fill their words: 2^64 - 1 in each
    let full = fe_to_bytes(&[u64::MAX; 5]);
    let mut sum = [0u64; 5];
    sum[0] = 0;
    let top = fe_reduce([u64::MAX; 5]);
    assert_eq!(full, fe_to_bytes(&top));
    assert_eq!(fe_to_bytes(&sum), [0u8; 32]);
}

#[test]
fn reduction_keeps_the_element() {
    let l = [u64::MAX, 5, 1 << 60, 0, (1 << 51) + 3];
    let r = fe_reduce(l);
    assert_eq!(r[0], (u64::MAX & FE_MASK) + 19);
    assert_eq!(r[1], 5 + (u64::MAX >> 51));
    assert_eq!(r[2], (1u64 << 60) & FE_MASK);
    assert_eq!(r[3], (1u64 << 60) >> 51);
    assert_eq!(r[4], 3);
    assert_eq!(fe_to_bytes(&r), fe_to_bytes(&l));
}

#[test]
fn square_is_product_with_itself() {
    let mut rng = StdRng::seed_from_u64(2);
    for _ in 0..200 {
        let x = random_fe(&mut rng);
        assert_eq!(fe_to_bytes(&fe_sq(&x)), fe_to_bytes(&fe_mul(&x, &x)));
    }
    let wide = [(1u64 << 54) - 1; 5];
    assert_eq!(fe_to_bytes(&fe_sq(&wide)), fe_to_bytes(&fe_mul(&wide, &wide)));
}

#[test]
fn products_distribute_over_sums() {
    let mut rng = StdRng::seed_from_u64(3);
    for _ in 0..200 {
        let (x, y, z) = (random_fe(&mut rng), random_fe(&mut rng), random_fe(&mut rng));
        let left = fe_mul(&x, &fe_add(&y, &z));
        let right = fe_add(&fe_mul(&x, &y), &fe_mul(&x, &z));
        assert_eq!(fe_to_bytes(&left), fe_to_bytes(&right));
        let left = fe_mul(&x, &fe_sub(&y, &z));
        let right = fe_sub(&fe_mul(&x, &y), &fe_mul(&x, &z));
        assert_eq!(fe_to_bytes(&left), fe_to_bytes(&right));
    }
}

#[test]
fn batch_inversion_inverts_each() {
    let mut rng = StdRng::seed_from_u64(4);
    for n in 0..9usize {
        let original: Vec<Fe> = (0..9).map(|_| random_fe(&mut rng)).collect();
        let mut zs = original.clone();
        let mut scratch = vec![[7u64; 5]; 9];
        fe_batch_invert(&mut zs, &mut scratch, n);
        for i in 0..9 {
            if i < n {
                assert_eq!(fe_to_bytes(&zs[i]), fe_to_bytes(&fe_invert(&original[i])));
                let mut product = FE_ONE;
                for z in &original[..i] {
                    product = fe_mul(&product, z);
                }
                assert_eq!(fe_to_bytes(&scratch[i]), fe_to_bytes(&product));
            } else {
                assert_eq!(zs[i], original[i]);
                assert_eq!(scratch[i], [7u64; 5]);
            }
        }
    }
}

#[test]
fn batch_inversion_with_a_zero_gives_zeros() {
    let mut zs = vec![small(2), small(0), small(5)];
    let mut scratch = vec![[0u64; 5]; 3];
    fe_batch_invert(&mut zs, &mut scratch, 3);
    for z in &zs {
        assert_eq!(fe_to_bytes(z), [0u8; 32]);
    }
}
