use curve25519_dalek::constants::ED25519_BASEPOINT_TABLE;
use curve25519_dalek::scalar::Scalar;
use rand::rngs::StdRng;
use rand::{RngCore, SeedableRng};
use tor_v3_vanity::bytes::add_u256;
use tor_v3_vanity::kernel::{
    fits_any, render, render_incremental, selftest, thread_index, try_candidate, BytePrefix,
    KernelParams, OUT_SLOTS,
};
use tor_v3_vanity::keys::{derive_key_with, Algo};
use tor_v3_vanity::onion::pubkey_to_onion;
use tor_v3_vanity::prefix::{BytePrefixOwned, PrefixError};

fn owned(s: &str) -> BytePrefixOwned {
    match BytePrefixOwned::new(s) {
        Ok(p) => p,
        Err(PrefixError::NotBase32 { prefix }) => panic!("{} was refused", prefix),
    }
}

fn random_seed(n: u64) -> [u8; 32] {
    let mut seed = [0u8; 32];
    StdRng::seed_from_u64(n).fill_bytes(&mut seed);
    seed
}

fn params(seed: [u8; 32], prefixes: &[&str], iters: u64) -> KernelParams {
    KernelParams {
        seed,
        byte_prefixes: prefixes.iter().map(|s| owned(s).as_byte_prefix()).collect(),
        iters,
    }
}

/// Hands the memory of a launch back to the host's side.
fn read_back(s: &str, b: &BytePrefix) -> (Vec<[u8; 32]>, u32) {
    let mut o = owned(s);
    o.out = b.out.clone();
    o.found = b.found;
    o.drain()
}

/// The secrets that a walk has to find, by the host's derivation alone.
fn expected_walk(seed: [u8; 32], prefix: &str, offset: u64, iters: u64) -> Vec<[u8; 32]> {
    (0..iters)
        .map(|k| add_u256(&seed, offset + k))
        .filter(|s| derive_key_with(Algo::Incremental, s, &[0; 32]).onion.starts_with(prefix))
        .collect()
}

#[test]
fn incremental_kernel_finds_what_the_host_derives() {
    let seed = random_seed(11);
    for iters in [0u64, 1, 31, 32, 33, 64, 65, 150] {
        let names = ["a", "7", "bc", "q"];
        let mut p = params(seed, &names, iters);
        render_incremental(&mut p, 3);
        for (q, name) in names.iter().enumerate() {
            let expected = expected_walk(seed, name, 3 * iters, iters);
            let (found, claimed) = read_back(name, &p.byte_prefixes[q]);
            assert_eq!(claimed as usize, expected.len());
            assert_eq!(found, expected);
        }
        assert_eq!(p.seed, seed);
        assert_eq!(p.iters, iters);
    }
}

#[test]
fn incremental_threads_cover_a_range() {
    let seed = random_seed(12);
    let mut all: Vec<[u8; 32]> = Vec::new();
    for tid in 0..5 {
        let mut p = params(seed, &["e"], 40);
        render_incremental(&mut p, tid);
        all.extend(read_back("e", &p.byte_prefixes[0]).0);
    }
    assert_eq!(all, expected_walk(seed, "e", 0, 200));
}

#[test]
fn recorded_scalars_pass_the_check() {
    let seed = random_seed(13);
    let mut p = params(seed, &["ab", "t3"], 3000);
    render_incremental(&mut p, 0);
    let mut seen = 0;
    for (q, name) in ["ab", "t3"].iter().enumerate() {
        for out in read_back(name, &p.byte_prefixes[q]).0 {
            let key = derive_key_with(Algo::Incremental, &out, &[9; 32]);
            assert!(key.onion.starts_with(name), "{}", key.onion);
            seen += 1;
        }
    }
    assert!(seen > 0);
}

#[test]
fn seed_kernel_finds_what_the_host_derives() {
    let seed = random_seed(14);
    let (x, stride, iters) = (5u64, 1000u64, 60u64);
    let mut p = params(seed, &["a", "m"], iters);
    render(&mut p, x, stride);
    for (q, name) in ["a", "m"].iter().enumerate() {
        let expected: Vec<[u8; 32]> = (0..iters)
            .map(|k| add_u256(&seed, x + k * stride))
            .filter(|s| derive_key_with(Algo::Seed, s, &[0; 32]).onion.starts_with(name))
            .collect();
        let (found, claimed) = read_back(name, &p.byte_prefixes[q]);
        assert_eq!(claimed as usize, expected.len());
        assert_eq!(found, expected);
    }
}

#[test]
fn seed_kernel_index_wraps() {
    let seed = random_seed(15);
    let mut p = params(seed, &["a"], 60);
    render(&mut p, u64::MAX - 1, 3);
    let expected: Vec<[u8; 32]> = (0..60u64)
        .map(|k| add_u256(&seed, (u64::MAX - 1).wrapping_add(3 * k)))
        .filter(|s| derive_key_with(Algo::Seed, s, &[0; 32]).onion.starts_with('a'))
        .collect();
    assert_eq!(read_back("a", &p.byte_prefixes[0]).0, expected);
}

#[test]
fn matches_beyond_the_slots_are_counted() {
    let seed = random_seed(16);
    // a prefix without constrained bits fits everything
    let mut p = params(seed, &["a"], OUT_SLOTS as u64 + 10);
    p.byte_prefixes[0].last_byte_mask = 0;
    render_incremental(&mut p, 0);
    let (found, claimed) = read_back("a", &p.byte_prefixes[0]);
    assert_eq!(claimed, OUT_SLOTS + 10);
    let expected: Vec<[u8; 32]> = (0..OUT_SLOTS as u64).map(|k| add_u256(&seed, k)).collect();
    assert_eq!(found, expected);
}

#[test]
fn recording_fills_the_slots_in_order() {
    let mut b = owned("abc").as_byte_prefix();
    for i in 0..OUT_SLOTS + 3 {
        b.record(&[i as u8 + 1; 32]);
        assert_eq!(b.found, i + 1);
    }
    for i in 0..OUT_SLOTS as usize {
        assert_eq!(&b.out[32 * i..32 * i + 32], &[i as u8 + 1; 32]);
    }
    // the counter wraps, and claims the first slot again
    b.found = u32::MAX;
    b.record(&[0xee; 32]);
    assert_eq!(b.found, 0);
    b.record(&[0xdd; 32]);
    assert_eq!(b.found, 1);
    assert_eq!(&b.out[..32], &[0xdd; 32]);
}

#[test]
fn matching_compares_the_constrained_bits() {
    let b = BytePrefix {
        byte_prefix: vec![0x12, 0x34, 0xaf],
        last_byte_idx: 2,
        last_byte_mask: 0xf0,
        out: vec![0; OUT_SLOTS as usize * 32],
        found: 0,
    };
    let mut data = [0u8; 32];
    data[..3].copy_from_slice(&[0x12, 0x34, 0xa0]);
    assert!(b.matches(&data));
    data[2] = 0xb0;
    assert!(!b.matches(&data));
    data[2] = 0xa7;
    data[0] = 0x13;
    assert!(!b.matches(&data));
}

#[test]
fn trying_a_candidate_records_where_it_fits() {
    let mut prefixes = vec![owned("a").as_byte_prefix(), owned("b").as_byte_prefix()];
    try_candidate(&mut prefixes, &[0; 32], &[5; 32]);
    assert_eq!((prefixes[0].found, prefixes[1].found), (1, 0));
    assert_eq!(&prefixes[0].out[..32], &[5; 32]);
    assert_eq!(&prefixes[1].out[..32], &[0; 32]);
}

#[test]
fn data_may_fit_any_of_the_prefixes() {
    let prefixes = vec![owned("b").as_byte_prefix(), owned("a").as_byte_prefix()];
    assert!(fits_any(&prefixes, &[0; 32]));
    assert!(fits_any(&prefixes, &[0x08; 32]));
    assert!(!fits_any(&prefixes, &[0x10; 32]));
    assert!(!fits_any(&Vec::new(), &[0; 32]));
}

#[test]
fn a_launch_hands_back_every_match() {
    // a prefix that constrains nothing: every candidate is a match
    let seed = random_seed(31);
    let mut p = params(seed, &["a"], 40);
    p.byte_prefixes[0].last_byte_mask = 0;
    render_incremental(&mut p, 1);
    let (found, claimed) = read_back("a", &p.byte_prefixes[0]);
    assert_eq!(claimed, 40);
    let expected: Vec<[u8; 32]> = (40..80).map(|k| add_u256(&seed, k)).collect();
    assert_eq!(found, expected);
}

#[test]
fn long_prefixes_reach_the_parity_bit() {
    let mut seen = [false; 2];
    for n in 40..60 {
        let seed = random_seed(n);
        let scalar = Scalar::from_bytes_mod_order(seed);
        let key = (&scalar * &ED25519_BASEPOINT_TABLE).compress().to_bytes();
        let mut other = key;
        other[31] ^= 0x80;
        for len in [49, 50, 51] {
            // the key is found by its own address, whatever the parity
            let prefix = pubkey_to_onion(&key)[..len].to_string();
            let mut p = params(seed, &[prefix.as_str()], 1);
            render_incremental(&mut p, 0);
            assert_eq!(read_back(&prefix, &p.byte_prefixes[0]), (vec![seed], 1));
            let onion = derive_key_with(Algo::Incremental, &seed, &[0; 32]).onion;
            assert!(onion.starts_with(&prefix));
            // and not by that of the point with the other parity, once the bit counts
            let prefix = pubkey_to_onion(&other)[..len].to_string();
            let mut p = params(seed, &[prefix.as_str()], 1);
            render_incremental(&mut p, 0);
            let claimed = if len < 50 { 1 } else { 0 };
            assert_eq!(read_back(&prefix, &p.byte_prefixes[0]).1, claimed);
            assert_eq!(onion.starts_with(&prefix), claimed == 1);
        }
        seen[(key[31] >> 7) as usize] = true;
    }
    assert_eq!(seen, [true, true]);
}

#[test]
fn selftest_agrees_with_the_reference() {
    for (trial, walk) in [0u64, 1, 2, 5, 100, 1000].iter().enumerate() {
        let seed = random_seed(20 + trial as u64);
        let mut p = params(seed, &["a", "b"], *walk);
        selftest(&mut p);
        let scalar = Scalar::from_bytes_mod_order(seed) + Scalar::from(*walk);
        let want = (&scalar * &ED25519_BASEPOINT_TABLE).compress().to_bytes();
        assert_eq!(&p.byte_prefixes[0].out[..32], &want);
        assert_eq!(p.byte_prefixes[0].found, 1);
        assert_eq!(p.byte_prefixes[1].found, 0);
    }
}

#[test]
fn index_of_threads() {
    assert_eq!(thread_index(256, 0, 0), 0);
    assert_eq!(thread_index(256, 3, 17), 785);
    assert_eq!(thread_index(u32::MAX, u32::MAX, u32::MAX), u64::MAX - u32::MAX as u64);
}
