use curve25519_dalek::constants::ED25519_BASEPOINT_TABLE;
use curve25519_dalek::edwards::{CompressedEdwardsY, EdwardsPoint};
use curve25519_dalek::scalar::Scalar;
use rand::rngs::StdRng;
use rand::{RngCore, SeedableRng};
use sha2::{Digest, Sha512};
use tor_v3_vanity::keys::{derive_key, derive_key_with, kernel_entry, Algo, FILE_PREFIX};
use tor_v3_vanity::onion::pubkey_to_onion;

const HEADER: &[u8] = b"== ed25519v1-secret: type0 ==\0\0\0";

fn random(n: u64) -> [u8; 32] {
    let mut b = [0u8; 32];
    StdRng::seed_from_u64(n).fill_bytes(&mut b);
    b
}

fn sha512_wide(parts: &[&[u8]]) -> [u8; 64] {
    let mut h = Sha512::new();
    for p in parts {
        h.update(p);
    }
    let mut out = [0u8; 64];
    out.copy_from_slice(&h.finalize());
    out
}

/// Derives the address from a key file alone, and signs and verifies with the scalar as stored.
fn validate(file: &[u8]) -> String {
    assert_eq!(file.len(), 96);
    assert_eq!(&file[..32], HEADER);
    let mut scalar_bytes = [0u8; 32];
    scalar_bytes.copy_from_slice(&file[32..64]);
    let nonce = &file[64..96];
    let scalar = Scalar::from_bits(scalar_bytes);
    let a_point: EdwardsPoint = &scalar * &ED25519_BASEPOINT_TABLE;
    let a_pub = a_point.compress().to_bytes();
    let msg = b"validate";
    let r = Scalar::from_bytes_mod_order_wide(&sha512_wide(&[nonce, msg]));
    let big_r = (&r * &ED25519_BASEPOINT_TABLE).compress().to_bytes();
    let k = Scalar::from_bytes_mod_order_wide(&sha512_wide(&[&big_r, &a_pub, msg]));
    let s = r + k * Scalar::from_bytes_mod_order(scalar_bytes);
    let big_r_pt = CompressedEdwardsY::from_slice(&big_r).decompress().unwrap();
    assert!((&s * &ED25519_BASEPOINT_TABLE) == big_r_pt + k * a_point);
    pubkey_to_onion(&a_pub)
}

#[test]
fn header_spells() {
    assert_eq!(&FILE_PREFIX[..], HEADER);
}

#[test]
fn incremental_keys_are_those_of_the_reduced_scalar() {
    for (n, out) in [random(1), random(2), [0xff; 32], [0; 32]].iter().enumerate() {
        let nonce = random(100 + n as u64);
        let key = derive_key_with(Algo::Incremental, out, &nonce);
        let scalar = Scalar::from_bytes_mod_order(*out);
        assert_eq!(&key.file[32..64], scalar.as_bytes());
        assert_eq!(&key.file[64..], &nonce);
        let pubkey = (&scalar * &ED25519_BASEPOINT_TABLE).compress().to_bytes();
        assert_eq!(key.onion, pubkey_to_onion(&pubkey));
        let mut stored = [0u8; 32];
        stored.copy_from_slice(&key.file[32..64]);
        assert!(Scalar::from_canonical_bytes(stored).is_some());
    }
}

#[test]
fn seed_keys_are_expanded_and_clamped() {
    for n in 0..5u64 {
        let out = random(n);
        let key = derive_key_with(Algo::Seed, &out, &[1; 32]);
        let mut h = sha512_wide(&[&out]);
        h[0] &= 248;
        h[31] &= 63;
        h[31] |= 64;
        assert_eq!(&key.file[32..], &h[..]);
        let esk = ed25519_dalek::ExpandedSecretKey::from(
            &ed25519_dalek::SecretKey::from_bytes(&out).unwrap(),
        );
        let pk = ed25519_dalek::PublicKey::from(&esk);
        assert_eq!(key.onion, pubkey_to_onion(pk.as_bytes()));
        let compact = ed25519_compact::KeyPair::from_seed(ed25519_compact::Seed::new(out));
        assert_eq!(key.onion, pubkey_to_onion(&compact.pk));
    }
}

#[test]
fn files_give_back_their_address() {
    for n in 0..5u64 {
        for algo in [Algo::Seed, Algo::Incremental] {
            let key = derive_key(algo, &random(n), &mut [0; 32]);
            assert_eq!(validate(&key.file), key.onion);
        }
    }
}

#[test]
fn nonces_are_fresh() {
    let out = random(3);
    let (mut first, mut second) = ([0u8; 32], [0u8; 32]);
    let a = derive_key(Algo::Incremental, &out, &mut first);
    let b = derive_key(Algo::Incremental, &out, &mut second);
    assert_eq!(a.onion, b.onion);
    assert_eq!(a.file[..64], b.file[..64]);
    assert_eq!(a.file[64..], first);
    assert_eq!(b.file[64..], second);
    assert_ne!(first, second);
}

#[test]
fn seeds_need_no_nonce() {
    let out = random(3);
    let mut nonce = [5u8; 32];
    let key = derive_key(Algo::Seed, &out, &mut nonce);
    assert_eq!(nonce, [5; 32]);
    assert_eq!(key.file, derive_key_with(Algo::Seed, &out, &[0; 32]).file);
}

#[test]
fn algorithms_give_different_keys() {
    let out = random(4);
    assert_ne!(
        derive_key_with(Algo::Seed, &out, &[0; 32]).onion,
        derive_key_with(Algo::Incremental, &out, &[0; 32]).onion
    );
}

#[test]
fn kernels_have_names() {
    assert_eq!(kernel_entry(Algo::Seed), "render");
    assert_eq!(kernel_entry(Algo::Incremental), "render_incremental");
}
