//! Key files: what each part of one holds.
use vstd::prelude::*;

use crate::bytes;
use crate::edwards;
use crate::keys;
use crate::keys::Algo;
use crate::onion;
use crate::point;

verus! {

/// The first 32 bytes of a key file are the header: `== ed25519v1-secret: type0 ==` and three zeros.
pub proof fn lemma_header(algo: Algo, out: Seq<u8>, nonce: Seq<u8>)
    ensures
        (keys::FILE_PREFIX@ + keys::derived_body(algo, out, nonce)).take(32) == seq![
            61u8, 61u8, 32u8, 101u8, 100u8, 50u8, 53u8, 53u8, 49u8, 57u8, 118u8, 49u8, 45u8, 115u8,
            101u8, 99u8, 114u8, 101u8, 116u8, 58u8, 32u8, 116u8, 121u8, 112u8, 101u8, 48u8, 32u8,
            61u8, 61u8, 0u8, 0u8, 0u8,
        ],
{
    let file = keys::FILE_PREFIX@ + keys::derived_body(algo, out, nonce);
    assert(file.take(32) =~= keys::FILE_PREFIX@);
}

/// A key file of the seed algorithm, for every seed and whatever the nonce holds: the clamped first
/// half of the SHA-512 digest of the seed, and then its second half as it is.
pub proof fn lemma_seed_file(out: Seq<u8>, nonce: Seq<u8>, file: Seq<u8>)
    requires
        out.len() == 32,
        file == keys::FILE_PREFIX@ + keys::derived_body(Algo::Seed, out, nonce),
        file.len() == 96,
    ensures
        ({
            let n = bytes::le_value(keys::sha512(out).take(32));
            &&& bytes::le_value(file.subrange(32, 64)) == (n / 8 * 8) % 28948022309329048855892746252171976963317496166410141009864396001978282409984int
                    + 28948022309329048855892746252171976963317496166410141009864396001978282409984int
            &&& file.subrange(64, 96) == keys::sha512(out).subrange(32, 64)
        }),
{
    keys::lemma_file_gives_address(Algo::Seed, out, nonce);
    let n: int = keys::derived_scalar(Algo::Seed, out);
    bytes::lemma_le_bytes_len(n, 32);
    assert(file.subrange(64, 96) =~= keys::sha512(out).subrange(32, 64));
}

/// The key file of a seed does not depend on the nonce.
pub proof fn lemma_seed_file_without_nonce(out: Seq<u8>, a: Seq<u8>, b: Seq<u8>)
    ensures
        keys::derived_body(Algo::Seed, out, a) == keys::derived_body(Algo::Seed, out, b),
{
}

/// A key file of the incremental algorithm, for every scalar and every nonce: the scalar modulo the
/// order of the base point, and then the nonce as it was drawn.
pub proof fn lemma_incremental_file(out: Seq<u8>, nonce: Seq<u8>)
    requires
        out.len() == 32,
        nonce.len() == 32,
    ensures
        ({
            let file = keys::FILE_PREFIX@ + keys::derived_body(Algo::Incremental, out, nonce);
            &&& file.len() == 96
            &&& bytes::le_value(file.subrange(32, 64)) == bytes::le_value(out)
                % 7237005577332262213973186563042994240857116359379907606001950938285454250989int
            &&& file.subrange(64, 96) == nonce
        }),
{
    keys::lemma_file_gives_address(Algo::Incremental, out, nonce);
    let file = keys::FILE_PREFIX@ + keys::derived_body(Algo::Incremental, out, nonce);
    bytes::lemma_le_bytes_len(keys::derived_scalar(Algo::Incremental, out), 32);
    assert(file.subrange(64, 96) =~= nonce);
}

/// The address that is derived is that of the scalar in the file: the file and the address belong
/// together, for every recorded secret, either algorithm and any nonce.
pub proof fn lemma_address_of_file(algo: Algo, out: Seq<u8>, nonce: Seq<u8>)
    requires
        out.len() == 32,
    ensures
        ({
            let file = keys::FILE_PREFIX@ + keys::derived_body(algo, out, nonce);
            let scalar = bytes::le_value(file.subrange(32, 64));
            keys::derived_address(algo, out) == onion::onion_address(keys::public_key(scalar))
        }),
{
    keys::lemma_file_gives_address(algo, out, nonce);
}

/// The public key of a scalar: 32 bytes that spell the second coordinate of the multiple of the base
/// point, with the parity of the first one in bit 255.
pub proof fn lemma_public_key(n: nat)
    ensures
        ({
            let p = edwards::times(n, edwards::base());
            let key = keys::public_key(n as int);
            &&& key.len() == 32
            &&& bytes::le_value(key) == p.y
                + 57896044618658097711785492504343953926634992332820282019728792003956564819968int
                * (p.x % 2)
        }),
{
    crate::order::lemma_base_valid();
    edwards::lemma_times_valid(n, edwards::base());
    let p = edwards::times(n, edwards::base());
    bytes::lemma_two_256();
    bytes::lemma_le_bytes_len(point::encoding(p), 32);
    bytes::lemma_le_value_of_bytes(point::encoding(p), 32);
}

/// The multiples of the base point: none of it is the neutral point, and each is one more than the
/// one before.
pub proof fn lemma_multiples(n: nat)
    ensures
        edwards::times(0, edwards::base()) == (edwards::Point { x: 0, y: 1 }),
        edwards::times(n + 1, edwards::base()) == edwards::plus(
            edwards::times(n, edwards::base()),
            edwards::base(),
        ),
{
    assert((n + 1 - 1) as nat == n);
}

} // verus!
