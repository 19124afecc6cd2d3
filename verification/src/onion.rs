//! Onion addresses, and the prefixes that they are searched for.
use sha3::{Digest, Sha3_256};
use vstd::prelude::*;

use crate::alphabet;
use crate::bytes::push_bytes;
use crate::text;
use crate::text::{ascii_lowercase, chars_of, decimal_chars, push_str, string_of, trim};

verus! {

/// The longest prefix that a search can look for: the public key is 256 bits, and 51 characters
/// pin down 255 of them. The next character would straddle the key and the checksum.
pub const MAX_PREFIX_CHARS: usize = 51;

/// The length from which on a prefix is out of reach in practice.
pub const IMPRACTICAL_PREFIX_CHARS: usize = 13;

/// The words `.onion checksum`, which the checksum of an address starts with.
pub const CHECKSUM_WORDS: [u8; 15] = [
    0x2e,
    0x6f,
    0x6e,
    0x69,
    0x6f,
    0x6e,
    0x20,
    0x63,
    0x68,
    0x65,
    0x63,
    0x6b,
    0x73,
    0x75,
    0x6d,
];

/// The version of the addresses.
pub const ONION_VERSION: u8 = 3;

/// The SHA3-256 digest of bytes.
pub uninterp spec fn sha3_256(data: Seq<u8>) -> Seq<u8>;

/// The SHA3-256 digest of bytes, by the `sha3` crate.
#[verifier::external_body]
fn sha3_256_digest(data: &[u8]) -> (r: [u8; 32])
    ensures
        r@ == sha3_256(data@),
{
    let mut hasher = Sha3_256::new();
    hasher.update(data);
    hasher.finalize().into()
}

/// What the checksum of an address is taken of.
pub open spec fn checksum_input(pubkey: Seq<u8>) -> Seq<u8> {
    CHECKSUM_WORDS@ + pubkey + seq![ONION_VERSION]
}

/// The bytes that an address spells: the public key, two bytes of checksum and the version.
pub open spec fn onion_bytes(pubkey: Seq<u8>, digest: Seq<u8>) -> Seq<u8> {
    pubkey + seq![digest[0], digest[1]] + seq![ONION_VERSION]
}

/// The address of a public key, for the digest of its checksum input.
pub open spec fn onion_text(pubkey: Seq<u8>, digest: Seq<u8>) -> Seq<char> {
    alphabet::lower_text(onion_bytes(pubkey, digest)) + ".onion"@
}

/// The address of a public key.
pub open spec fn onion_address(pubkey: Seq<u8>) -> Seq<char> {
    onion_text(pubkey, sha3_256(checksum_input(pubkey)))
}

/// The address of a public key, for the digest of its checksum input.
pub fn onion_of(pubkey: &[u8; 32], digest: &[u8; 32]) -> (r: String)
    ensures
        r@ == onion_text(pubkey@, digest@),
        r@.len() == 62,
{
    let mut onion: Vec<u8> = Vec::new();
    push_bytes(&mut onion, pubkey);
    onion.push(digest[0]);
    onion.push(digest[1]);
    onion.push(ONION_VERSION);
    proof {
        assert(onion@ =~= onion_bytes(pubkey@, digest@));
    }
    let upper = alphabet::encode(onion.as_slice());
    let mut r = ascii_lowercase(&chars_of(upper.as_str()));
    proof {
        assert forall|k: int| 0 <= k < 56 implies #[trigger] r@[k] == alphabet::letter(
            alphabet::group(onion@, k),
        ) by {
            alphabet::lemma_group_range(onion@, k);
            alphabet::lemma_lower_letter(alphabet::group(onion@, k));
        }
        assert(r@ =~= alphabet::lower_text(onion@));
        reveal_strlit(".onion");
    }
    push_str(&mut r, ".onion");
    string_of(r)
}

/// The address of a public key: the key, a checksum and the version in base32, and the ending.
pub fn pubkey_to_onion(pubkey: &[u8; 32]) -> (r: String)
    ensures
        r@ == onion_address(pubkey@),
        r@.len() == 62,
{
    let mut input: Vec<u8> = Vec::new();
    push_bytes(&mut input, &CHECKSUM_WORDS);
    push_bytes(&mut input, pubkey);
    input.push(ONION_VERSION);
    proof {
        assert(input@ =~= checksum_input(pubkey@));
    }
    let digest = sha3_256_digest(input.as_slice());
    onion_of(pubkey, &digest)
}

/// A character that addresses are made of.
pub open spec fn onion_char(c: char) -> bool {
    'a' <= c <= 'z' || '2' <= c <= '7'
}

/// What can be searched for: between one and [`MAX_PREFIX_CHARS`] characters of addresses.
pub open spec fn valid_prefix(p: Seq<char>) -> bool {
    &&& 0 < p.len() <= MAX_PREFIX_CHARS
    &&& forall|i: int| 0 <= i < p.len() ==> onion_char(#[trigger] p[i])
}

/// The first character that addresses are not made of.
pub open spec fn first_bad(p: Seq<char>) -> Option<char>
    decreases p.len(),
{
    if p.len() == 0 {
        None
    } else if onion_char(p[0]) {
        first_bad(p.drop_first())
    } else {
        Some(p[0])
    }
}

/// A prefix as given, trimmed and in lower case.
pub open spec fn normal(s: Seq<char>) -> Seq<char> {
    text::lowered(text::trimmed(s))
}

/// Why a trimmed prefix in lower case is refused.
pub open spec fn refusal(p: Seq<char>) -> Seq<char> {
    if p.len() == 0 {
        "prefix is empty"@
    } else if first_bad(p) is Some {
        "'"@ + seq![first_bad(p)->0]
            + "' is not a base32 character — onion addresses use a-z and 2-7 only (note: 0, 1, 8 and 9 are never valid)"@
    } else {
        text::decimal(p.len()) + " characters is longer than the "@ + text::decimal(
            MAX_PREFIX_CHARS as nat,
        ) + " the public key can constrain, so it could never match"@
    }
}

/// Without a bad character, every character is one of addresses.
pub proof fn lemma_first_bad(p: Seq<char>)
    ensures
        first_bad(p) is None <==> forall|i: int| 0 <= i < p.len() ==> onion_char(#[trigger] p[i]),
    decreases p.len(),
{
    if p.len() > 0 {
        let rest = p.drop_first();
        lemma_first_bad(rest);
        assert forall|i: int| 0 <= i < rest.len() implies #[trigger] rest[i] == p[i + 1] by {}
        if onion_char(p[0]) && first_bad(rest) is None {
            assert forall|i: int| 0 <= i < p.len() implies onion_char(#[trigger] p[i]) by {
                if i > 0 {
                    assert(onion_char(rest[i - 1]));
                }
            }
        }
        if forall|i: int| 0 <= i < p.len() ==> onion_char(#[trigger] p[i]) {
            assert forall|i: int| 0 <= i < rest.len() implies onion_char(#[trigger] rest[i]) by {
                assert(onion_char(p[i + 1]));
            }
        }
    }
}

/// The first character that addresses are not made of.
fn find_bad(p: &Vec<char>) -> (r: Option<char>)
    ensures
        r == first_bad(p@),
{
    let n: usize = p.len();
    let mut i: usize = 0;
    assert(p@.subrange(0, n as int) =~= p@);
    while i < n
        invariant
            i <= n,
            n == p@.len(),
            first_bad(p@) == first_bad(p@.subrange(i as int, n as int)),
        decreases n - i,
    {
        let c: char = p[i];
        let ghost t = p@.subrange(i as int, n as int);
        if !(('a' <= c && c <= 'z') || ('2' <= c && c <= '7')) {
            return Some(c);
        }
        assert(t.drop_first() =~= p@.subrange(i + 1, n as int));
        i += 1;
    }
    None
}

/// Trims a prefix, puts it in lower case and checks it.
///
/// Addresses are in lower case, so a prefix in upper case would never be found in one.
pub fn normalize_prefix(s: &str) -> (r: Result<String, String>)
    ensures
        r is Ok <==> valid_prefix(normal(s@)),
        r is Ok ==> r->Ok_0@ == normal(s@),
        r is Err ==> r->Err_0@ == refusal(normal(s@)),
{
    let p = ascii_lowercase(&trim(&chars_of(s)));
    proof {
        lemma_first_bad(p@);
    }
    if p.len() == 0 {
        let mut e: Vec<char> = Vec::new();
        push_str(&mut e, "prefix is empty");
        assert(e@ =~= "prefix is empty"@);
        return Err(string_of(e));
    }
    if let Some(c) = find_bad(&p) {
        let mut e: Vec<char> = Vec::new();
        push_str(&mut e, "'");
        e.push(c);
        push_str(
            &mut e,
            "' is not a base32 character — onion addresses use a-z and 2-7 only (note: 0, 1, 8 and 9 are never valid)",
        );
        assert(e@ =~= refusal(p@));
        return Err(string_of(e));
    }
    if p.len() > MAX_PREFIX_CHARS {
        let mut e = decimal_chars(p.len() as u64);
        push_str(&mut e, " characters is longer than the ");
        let mut m = decimal_chars(MAX_PREFIX_CHARS as u64);
        e.append(&mut m);
        push_str(&mut e, " the public key can constrain, so it could never match");
        assert(e@ =~= refusal(p@));
        return Err(string_of(e));
    }
    Ok(string_of(p))
}

/// Prefixes are case-insensitive: those that differ in case alone are the same.
pub proof fn lemma_case_insensitive(a: Seq<char>, b: Seq<char>)
    requires
        text::lowered(a) == text::lowered(b),
    ensures
        normal(a) == normal(b),
{
    text::lemma_trim_lower(a);
    text::lemma_trim_lower(b);
}

/// Normalizing again changes nothing: an accepted prefix is accepted as it is.
pub proof fn lemma_normalize_again(p: Seq<char>)
    requires
        valid_prefix(p),
    ensures
        normal(p) == p,
{
    assert(onion_char(p[0]));
    assert(onion_char(p.last()));
    assert(text::trimmed(p) == p);
    assert forall|i: int| 0 <= i < p.len() implies text::lower(#[trigger] p[i]) == p[i] by {
        assert(onion_char(p[i]));
    }
    assert(text::lowered(p) =~= p);
}

/// White space around a prefix does not matter: trimming it first changes nothing.
pub proof fn lemma_normalize_trimmed(s: Seq<char>)
    ensures
        normal(text::trimmed(s)) == normal(s),
{
    text::lemma_trim_again(s);
}

/// Every address consists of 56 characters of the alphabet and the ending.
pub proof fn lemma_address_shape(pubkey: Seq<u8>, digest: Seq<u8>)
    requires
        pubkey.len() == 32,
    ensures
        onion_text(pubkey, digest).len() == 62,
        onion_text(pubkey, digest).subrange(56, 62) == ".onion"@,
        forall|k: int| 0 <= k < 56 ==> onion_char(#[trigger] onion_text(pubkey, digest)[k]),
{
    reveal_strlit(".onion");
    let data = onion_bytes(pubkey, digest);
    let t = onion_text(pubkey, digest);
    assert forall|k: int| 0 <= k < 56 implies onion_char(#[trigger] t[k]) by {
        alphabet::lemma_group_range(data, k);
        alphabet::lemma_lower_letter(alphabet::group(data, k));
    }
    assert(t.subrange(56, 62) =~= ".onion"@);
}

} // verus!
