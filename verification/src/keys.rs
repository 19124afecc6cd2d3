//! Keys: from seeds and scalars to public keys and to the contents of key files.
use rand::{Rng, RngCore};
use vstd::prelude::*;

use crate::bytes;
use crate::bytes::push_bytes;
use crate::edwards;
use crate::laws;
use crate::onion;
use crate::onion::pubkey_to_onion;
use crate::order;
use crate::point;

verus! {

/// What a secret key file starts with: `== ed25519v1-secret: type0 ==` and three zeros.
pub const FILE_PREFIX: [u8; 32] = [
    0x3d,
    0x3d,
    0x20,
    0x65,
    0x64,
    0x32,
    0x35,
    0x35,
    0x31,
    0x39,
    0x76,
    0x31,
    0x2d,
    0x73,
    0x65,
    0x63,
    0x72,
    0x65,
    0x74,
    0x3a,
    0x20,
    0x74,
    0x79,
    0x70,
    0x65,
    0x30,
    0x20,
    0x3d,
    0x3d,
    0x00,
    0x00,
    0x00,
];

/// The SHA-512 digest of bytes. Two implementations compute it: that of `ed25519_compact`, and that
/// of the `sha2` crate under `ed25519_dalek`.
pub uninterp spec fn sha512(data: Seq<u8>) -> Seq<u8>;

/// `2^254`.
pub open spec fn two_254() -> int {
    0x4000000000000000000000000000000000000000000000000000000000000000int
}

/// A scalar with its low three bits cleared, bit 254 set and bit 255 cleared.
pub open spec fn clamped(n: int) -> int {
    n % two_254() - n % 8 + two_254()
}

/// The encoding of the multiple of the base point by a scalar.
pub open spec fn public_key(n: int) -> Seq<u8> {
    bytes::le_bytes(point::encoding(edwards::times(n as nat, edwards::base())), 32)
}

/// The secret scalar that the digest of a seed holds.
pub open spec fn seed_scalar(digest: Seq<u8>) -> int {
    clamped(bytes::le_value(digest.take(32)))
}

/// The public key of a seed: `ed25519_compact::KeyPair::from_seed`, which takes the first half of
/// the SHA-512 digest of the seed, clamps it and multiplies the base point by it. It panics on
/// the seed of all zeros.
#[verifier::external_body]
pub(crate) fn public_key_of_seed(seed: &[u8; 32]) -> (r: [u8; 32])
    requires
        bytes::le_value(seed@) != 0,
    ensures
        r@ == public_key(seed_scalar(sha512(seed@))),
{
    *ed25519_compact::KeyPair::from_seed(ed25519_compact::Seed::new(*seed)).pk
}

/// The expanded secret key of a seed: `ed25519_dalek::ExpandedSecretKey::from` a secret key, which
/// is the SHA-512 digest of the seed with its first half clamped.
#[verifier::external_body]
fn expand_secret(seed: &[u8; 32]) -> (r: [u8; 64])
    ensures
        r@ == bytes::le_bytes(seed_scalar(sha512(seed@)), 32) + sha512(seed@).subrange(32, 64),
{
    ed25519_dalek::ExpandedSecretKey::from(&ed25519_dalek::SecretKey::from_bytes(seed).unwrap())
        .to_bytes()
}

/// The public key of an expanded secret key: `ed25519_dalek::PublicKey::from`, which clamps the
/// first half and multiplies the base point by it.
#[verifier::external_body]
fn public_key_of_expanded(secret: &[u8; 64]) -> (r: [u8; 32])
    ensures
        r@ == public_key(clamped(bytes::le_value(secret@.take(32)))),
{
    ed25519_dalek::PublicKey::from(
        &ed25519_dalek::ExpandedSecretKey::from_bytes(secret).unwrap(),
    ).to_bytes()
}

/// A number of 256 bits modulo the order of the base point:
/// `curve25519_dalek::scalar::Scalar::from_bytes_mod_order`.
#[verifier::external_body]
fn reduce_scalar(bytes: &[u8; 32]) -> (r: [u8; 32])
    ensures
        bytes::le_value(r@) == bytes::le_value(bytes@) % edwards::order(),
{
    curve25519_dalek::scalar::Scalar::from_bytes_mod_order(*bytes).to_bytes()
}

/// The encoding of the multiple of the base point by a scalar: the product of a
/// `curve25519_dalek::scalar::Scalar` and `ED25519_BASEPOINT_TABLE`, compressed. The scalar is
/// taken as it is, without clamping.
#[verifier::external_body]
fn base_multiple(scalar: &[u8; 32]) -> (r: [u8; 32])
    requires
        bytes::le_value(scalar@) < 2 * two_254(),
    ensures
        r@ == public_key(bytes::le_value(scalar@)),
{
    (&curve25519_dalek::scalar::Scalar::from_bits(*scalar)
        * &curve25519_dalek::constants::ED25519_BASEPOINT_TABLE).compress().to_bytes()
}

/// Fills a buffer with fresh random bytes: `rand::RngCore::fill_bytes` of the generator of the
/// thread. Nothing is said of the bytes.
#[verifier::external_body]
fn fill_random(buf: &mut [u8; 32])
{
    rand::thread_rng().fill_bytes(buf);
}

/// A random number below a bound: `rand::Rng::gen_range` of the generator of the thread. It
/// panics if there is none.
#[verifier::external_body]
pub(crate) fn random_below(n: usize) -> (r: usize)
    requires
        n > 0,
    ensures
        r < n,
{
    rand::thread_rng().gen_range(0..n)
}

/// Which kernel searches.
#[derive(Clone, Copy, PartialEq, Eq, Structural)]
pub enum Algo {
    /// Hashes a fresh seed for each candidate.
    Seed,
    /// Multiplies the base point once for each thread, and then walks by adding it.
    Incremental,
}

/// The name of the kernel of an algorithm.
pub open spec fn entry_text(algo: Algo) -> Seq<char> {
    match algo {
        Algo::Seed => "render"@,
        Algo::Incremental => "render_incremental"@,
    }
}

/// The name of the kernel of an algorithm.
pub fn kernel_entry(algo: Algo) -> (r: &'static str)
    ensures
        r@ == entry_text(algo),
        algo == Algo::Seed ==> r@ == "render"@,
        algo == Algo::Incremental ==> r@ == "render_incremental"@,
{
    match algo {
        Algo::Seed => "render",
        Algo::Incremental => "render_incremental",
    }
}

/// An address and its secret key file.
pub struct DerivedKey {
    /// The address.
    pub onion: String,
    /// The contents of the file: the header, the secret scalar and 32 more bytes.
    pub file: Vec<u8>,
}

/// The secret scalar, from what a kernel recorded: a seed, or a scalar that may exceed the order.
pub open spec fn derived_scalar(algo: Algo, out: Seq<u8>) -> int {
    match algo {
        Algo::Seed => seed_scalar(sha512(out)),
        Algo::Incremental => bytes::le_value(out) % edwards::order(),
    }
}

/// What the key file holds behind the header, from what a kernel recorded and a nonce: the scalar,
/// and the second half of the digest of the seed or the nonce.
pub open spec fn derived_body(algo: Algo, out: Seq<u8>, nonce: Seq<u8>) -> Seq<u8> {
    bytes::le_bytes(derived_scalar(algo, out), 32) + match algo {
        Algo::Seed => sha512(out).subrange(32, 64),
        Algo::Incremental => nonce,
    }
}

/// The address of what a kernel recorded.
pub open spec fn derived_address(algo: Algo, out: Seq<u8>) -> Seq<char> {
    onion::onion_address(public_key(derived_scalar(algo, out)))
}

/// Clamping again changes nothing.
pub proof fn lemma_clamped_again(n: int)
    ensures
        clamped(clamped(n)) == clamped(n),
        0 <= clamped(n) < 2 * two_254(),
{
}

/// The address and the key file, from what a kernel recorded and 32 random bytes, which the
/// incremental algorithm puts behind the scalar.
pub fn derive_key_with(algo: Algo, out: &[u8; 32], nonce: &[u8; 32]) -> (r: DerivedKey)
    ensures
        algo == Algo::Seed ==> r.file@.subrange(64, 96) == sha512(out@).subrange(32, 64),
        algo == Algo::Incremental ==> r.file@.subrange(64, 96) == nonce@,
        algo == Algo::Incremental ==> bytes::le_value(r.file@.subrange(32, 64)) == bytes::le_value(
            out@,
        ) % 7237005577332262213973186563042994240857116359379907606001950938285454250989int,
        r.file@ == FILE_PREFIX@ + derived_body(algo, out@, nonce@),
        r.file@.len() == 96,
        r.onion@ == derived_address(algo, out@),
        r.onion@.len() == 62,
{
    let mut file: Vec<u8> = Vec::with_capacity(96);
    push_bytes(&mut file, &FILE_PREFIX);
    match algo {
        Algo::Seed => {
            let secret = expand_secret(out);
            let pubkey = public_key_of_expanded(&secret);
            push_bytes(&mut file, &secret);
            proof {
                let digest = sha512(out@);
                let n: int = seed_scalar(digest);
                lemma_clamped_again(bytes::le_value(digest.take(32)));
                lemma_bytes_of(n);
                assert(secret@.take(32) =~= bytes::le_bytes(n, 32));
                assert(file@ =~= FILE_PREFIX@ + derived_body(algo, out@, nonce@));
                laws::key_file::lemma_seed_file(out@, nonce@, file@);
            }
            DerivedKey { onion: pubkey_to_onion(&pubkey), file }
        },
        Algo::Incremental => {
            let scalar = reduce_scalar(out);
            proof {
                bytes::lemma_le_bytes(scalar@);
                bytes::lemma_le_words(out@);
            }
            let pubkey = base_multiple(&scalar);
            push_bytes(&mut file, &scalar);
            push_bytes(&mut file, nonce);
            assert(file@ =~= FILE_PREFIX@ + derived_body(algo, out@, nonce@));
            proof {
                laws::key_file::lemma_incremental_file(out@, nonce@);
            }
            DerivedKey { onion: pubkey_to_onion(&pubkey), file }
        },
    }
}

/// The address and the key file, from what a kernel recorded.
///
/// The incremental algorithm draws the bytes behind the scalar into `nonce`, which stays with the
/// caller to be wiped; the seed algorithm draws none.
pub fn derive_key(algo: Algo, out: &[u8; 32], nonce: &mut [u8; 32]) -> (r: DerivedKey)
    ensures
        algo == Algo::Seed ==> *final(nonce) == *old(nonce),
        algo == Algo::Seed ==> r.file@.subrange(64, 96) == sha512(out@).subrange(32, 64),
        algo == Algo::Incremental ==> r.file@.subrange(64, 96) == final(nonce)@,
        algo == Algo::Incremental ==> bytes::le_value(r.file@.subrange(32, 64)) == bytes::le_value(
            out@,
        ) % 7237005577332262213973186563042994240857116359379907606001950938285454250989int,
        r.file@ == FILE_PREFIX@ + derived_body(algo, out@, final(nonce)@),
        r.file@.len() == 96,
        r.onion@ == derived_address(algo, out@),
        r.onion@.len() == 62,
{
    match algo {
        Algo::Seed => {},
        Algo::Incremental => {
            fill_random(nonce);
        },
    }
    derive_key_with(algo, out, nonce)
}

/// The bytes of a number of 256 bits.
proof fn lemma_bytes_of(n: int)
    requires
        0 <= n < bytes::two_256(),
    ensures
        bytes::le_value(bytes::le_bytes(n, 32)) == n,
        bytes::le_bytes(n, 32).len() == 32,
{
    bytes::lemma_two_256();
    bytes::lemma_le_value_of_bytes(n, 32);
    bytes::lemma_le_bytes_len(n, 32);
}

/// A key file of the incremental algorithm stores a canonical scalar.
pub proof fn lemma_stored_scalar_canonical(out: Seq<u8>, nonce: Seq<u8>)
    requires
        out.len() == 32,
    ensures
        ({
            let file = FILE_PREFIX@ + derived_body(Algo::Incremental, out, nonce);
            0 <= bytes::le_value(file.subrange(32, 64)) < edwards::order()
        }),
{
    lemma_file_gives_address(Algo::Incremental, out, nonce);
}

/// A key file gives back the address that it is named for: the scalar that it stores, taken as it
/// is, gives the public key of that address.
pub proof fn lemma_file_gives_address(algo: Algo, out: Seq<u8>, nonce: Seq<u8>)
    requires
        out.len() == 32,
    ensures
        ({
            let file = FILE_PREFIX@ + derived_body(algo, out, nonce);
            let scalar = bytes::le_value(file.subrange(32, 64));
            &&& scalar == derived_scalar(algo, out)
            &&& onion::onion_address(public_key(scalar)) == derived_address(algo, out)
        }),
{
    let n: int = derived_scalar(algo, out);
    bytes::lemma_le_words(out);
    lemma_clamped_again(bytes::le_value(sha512(out).take(32)));
    lemma_bytes_of(n);
    let file = FILE_PREFIX@ + derived_body(algo, out, nonce);
    assert(file.subrange(32, 64) =~= bytes::le_bytes(n, 32));
}

/// The scalars of the seed algorithm are clamped, so that clamping one again does not change the
/// address; see [`lemma_file_gives_address`] for the file.
pub proof fn lemma_seed_scalar_clamped(out: Seq<u8>)
    ensures
        clamped(derived_scalar(Algo::Seed, out)) == derived_scalar(Algo::Seed, out),
{
    lemma_clamped_again(bytes::le_value(sha512(out).take(32)));
}

/// Reducing a scalar modulo the order of the base point keeps its public key.
pub proof fn lemma_reduced_key(n: nat)
    ensures
        public_key(n as int % edwards::order()) == public_key(n as int),
{
    order::lemma_times_reduced(n);
}

} // verus!
