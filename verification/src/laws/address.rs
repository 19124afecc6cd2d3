//! Addresses: what their characters spell.
use vstd::prelude::*;

use crate::alphabet;
use crate::onion;

verus! {

/// The characters of an address for a digest: 56 letters and digits, and the ending.
///
/// Eight characters spell five bytes. The bytes are the public key, then the first two of the digest
/// in order, then the version, for every key and every digest alike.
pub proof fn lemma_address_spells(pubkey: Seq<u8>, digest: Seq<u8>, g: int)
    requires
        pubkey.len() == 32,
        0 <= g < 7,
    ensures
        ({
            let t = onion::onion_text(pubkey, digest);
            let v = |c: char|
                if 'a' <= c {
                    c as int - 97
                } else {
                    c as int - 24
                };
            let b = |i: int|
                if i < 32 {
                    pubkey[i] as int
                } else if i == 32 {
                    digest[0] as int
                } else if i == 33 {
                    digest[1] as int
                } else {
                    3
                };
            &&& t.len() == 62
            &&& t.subrange(56, 62) == seq!['.', 'o', 'n', 'i', 'o', 'n']
            &&& forall|k: int|
                0 <= k < 56 ==> 97 <= (#[trigger] t[k]) as int <= 122 || 50 <= t[k] as int <= 55
            &&& 34359738368 * v(t[8 * g]) + 1073741824 * v(t[8 * g + 1]) + 33554432 * v(
                t[8 * g + 2],
            ) + 1048576 * v(t[8 * g + 3]) + 32768 * v(t[8 * g + 4]) + 1024 * v(t[8 * g + 5]) + 32
                * v(t[8 * g + 6]) + v(t[8 * g + 7]) == 4294967296 * b(5 * g) + 16777216 * b(
                5 * g + 1,
            ) + 65536 * b(5 * g + 2) + 256 * b(5 * g + 3) + b(5 * g + 4)
        }),
{
    let t = onion::onion_text(pubkey, digest);
    let data = onion::onion_bytes(pubkey, digest);
    onion::lemma_address_shape(pubkey, digest);
    reveal_strlit(".onion");
    assert(t.subrange(56, 62) =~= seq!['.', 'o', 'n', 'i', 'o', 'n']);
    assert forall|k: int| 0 <= k < 56 implies 97 <= (#[trigger] t[k]) as int <= 122 || 50
        <= t[k] as int <= 55 by {
        lemma_character(pubkey, digest, k);
    }
    lemma_character(pubkey, digest, 8 * g);
    lemma_character(pubkey, digest, 8 * g + 1);
    lemma_character(pubkey, digest, 8 * g + 2);
    lemma_character(pubkey, digest, 8 * g + 3);
    lemma_character(pubkey, digest, 8 * g + 4);
    lemma_character(pubkey, digest, 8 * g + 5);
    lemma_character(pubkey, digest, 8 * g + 6);
    lemma_character(pubkey, digest, 8 * g + 7);
    lemma_bytes(pubkey, digest);
    alphabet::lemma_five_bytes(data, g);
}

/// The bytes of an address: the key, the first two bytes of the digest in order, and the version.
pub proof fn lemma_bytes(pubkey: Seq<u8>, digest: Seq<u8>)
    requires
        pubkey.len() == 32,
    ensures
        onion::onion_bytes(pubkey, digest).len() == 35,
        forall|i: int| 0 <= i < 32 ==> #[trigger] onion::onion_bytes(pubkey, digest)[i] == pubkey[i],
        onion::onion_bytes(pubkey, digest)[32] == digest[0],
        onion::onion_bytes(pubkey, digest)[33] == digest[1],
        onion::onion_bytes(pubkey, digest)[34] == 3,
{
}

/// A character of an address stands for its group of bits.
proof fn lemma_character(pubkey: Seq<u8>, digest: Seq<u8>, k: int)
    requires
        pubkey.len() == 32,
        0 <= k < 56,
    ensures
        ({
            let c = onion::onion_text(pubkey, digest)[k];
            let v = alphabet::group(onion::onion_bytes(pubkey, digest), k);
            &&& 97 <= c as int <= 122 || 50 <= c as int <= 55
            &&& v == if 'a' <= c {
                c as int - 97
            } else {
                c as int - 24
            }
        }),
{
    let data = onion::onion_bytes(pubkey, digest);
    alphabet::lemma_group_range(data, k);
    alphabet::lemma_lower_letter(alphabet::group(data, k));
}

/// The address of a public key is the text for the SHA3-256 digest of the words `.onion checksum`,
/// the key and the version, and spells the key, two bytes of that digest and the version.
pub proof fn lemma_public_key_spells(pubkey: Seq<u8>, g: int)
    requires
        pubkey.len() == 32,
        0 <= g < 7,
    ensures
        ({
            let words: Seq<u8> = seq![
                46, 111, 110, 105, 111, 110, 32, 99, 104, 101, 99, 107, 115, 117, 109,
            ];
            let digest = onion::sha3_256(words + pubkey + seq![3u8]);
            let t = onion::onion_address(pubkey);
            let v = |c: char|
                if 'a' <= c {
                    c as int - 97
                } else {
                    c as int - 24
                };
            let b = |i: int|
                if i < 32 {
                    pubkey[i] as int
                } else if i == 32 {
                    digest[0] as int
                } else if i == 33 {
                    digest[1] as int
                } else {
                    3
                };
            &&& t.len() == 62
            &&& t.subrange(56, 62) == seq!['.', 'o', 'n', 'i', 'o', 'n']
            &&& forall|k: int|
                0 <= k < 56 ==> 97 <= (#[trigger] t[k]) as int <= 122 || 50 <= t[k] as int <= 55
            &&& 34359738368 * v(t[8 * g]) + 1073741824 * v(t[8 * g + 1]) + 33554432 * v(
                t[8 * g + 2],
            ) + 1048576 * v(t[8 * g + 3]) + 32768 * v(t[8 * g + 4]) + 1024 * v(t[8 * g + 5]) + 32
                * v(t[8 * g + 6]) + v(t[8 * g + 7]) == 4294967296 * b(5 * g) + 16777216 * b(
                5 * g + 1,
            ) + 65536 * b(5 * g + 2) + 256 * b(5 * g + 3) + b(5 * g + 4)
        }),
{
    let words: Seq<u8> = seq![46, 111, 110, 105, 111, 110, 32, 99, 104, 101, 99, 107, 115, 117, 109];
    assert(onion::CHECKSUM_WORDS@ =~= words);
    assert(onion::checksum_input(pubkey) =~= words + pubkey + seq![3u8]);
    lemma_address_spells(pubkey, onion::sha3_256(onion::checksum_input(pubkey)), g);
}

} // verus!
