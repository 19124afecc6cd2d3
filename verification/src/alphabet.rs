//! The base32 alphabet of onion addresses, and bytes as sequences of bits.
use vstd::arithmetic::div_mod::*;
use vstd::arithmetic::power2::*;
use vstd::prelude::*;
use vstd::utf8::*;

use crate::text;

verus! {

/// Bit `j` of a byte, the most significant first.
pub open spec fn byte_bit(b: u8, j: int) -> int {
    (b as int / (pow2((7 - j) as nat) as int)) % 2
}

/// Bit `i` of bytes, the most significant of each byte first, and zero beyond the end.
pub open spec fn bit(data: Seq<u8>, i: int) -> int {
    if 0 <= i < 8 * data.len() {
        byte_bit(data[i / 8], i % 8)
    } else {
        0
    }
}

/// The number in the `k`-th group of five bits.
pub open spec fn group(data: Seq<u8>, k: int) -> int {
    16 * bit(data, 5 * k) + 8 * bit(data, 5 * k + 1) + 4 * bit(data, 5 * k + 2) + 2 * bit(
        data,
        5 * k + 3,
    ) + bit(data, 5 * k + 4)
}

/// The upper-case letter or the digit for five bits.
pub open spec fn upper_letter(v: int) -> char {
    if v < 26 {
        (65 + v) as char
    } else {
        (24 + v) as char
    }
}

/// The lower-case letter or the digit for five bits.
pub open spec fn letter(v: int) -> char {
    if v < 26 {
        (97 + v) as char
    } else {
        (24 + v) as char
    }
}

/// The five bits that a letter of either case or a digit from 2 to 7 stands for; the padding
/// character counts as zero. Other characters have none.
pub open spec fn symbol(c: char) -> Option<int> {
    if 'A' <= c <= 'Z' {
        Some(c as int - 65)
    } else if 'a' <= c <= 'z' {
        Some(c as int - 97)
    } else if '2' <= c <= '7' {
        Some(c as int - 24)
    } else if c == '=' {
        Some(0)
    } else {
        None
    }
}

/// Bit `i` of the text, five bits to a character.
pub open spec fn text_bit(s: Seq<char>, i: int) -> int {
    (symbol(s[i / 5])->0 / (pow2((4 - i % 5) as nat) as int)) % 2
}

/// Every character stands for five bits.
pub open spec fn is_text(s: Seq<char>) -> bool {
    forall|i: int| 0 <= i < s.len() ==> symbol(#[trigger] s[i]) is Some
}

/// The bytes in upper-case base32 without padding.
pub open spec fn upper_text(data: Seq<u8>) -> Seq<char> {
    Seq::new(((8 * data.len() + 4) / 5) as nat, |k: int| upper_letter(group(data, k)))
}

/// The bytes in lower-case base32 without padding.
pub open spec fn lower_text(data: Seq<u8>) -> Seq<char> {
    Seq::new(((8 * data.len() + 4) / 5) as nat, |k: int| letter(group(data, k)))
}

/// Encodes bytes: `base32::encode` with the RFC 4648 alphabet and no padding, which writes one
/// character for each group of five bits, the last group filled up with zeros.
#[verifier::external_body]
pub(crate) fn encode(data: &[u8]) -> (r: String)
    requires
        8 * data@.len() <= isize::MAX,
    ensures
        r@ == upper_text(data@),
{
    base32::encode(base32::Alphabet::RFC4648 { padding: false }, data)
}

/// Decodes text: `base32::decode` with the RFC 4648 alphabet, which takes letters of either case
/// and reads the padding character as zero. It returns the whole bytes among five bits for each
/// character, or nothing if some character stands for no bits. Nothing is said here of text that
/// is empty or ends in the padding character, which shortens the result.
#[verifier::external_body]
pub(crate) fn decode(s: &str) -> (r: Option<Vec<u8>>)
    requires
        5 * encode_utf8(s@).len() <= usize::MAX,
    ensures
        s@.len() > 0 && s@.last() != '=' ==> (r is Some <==> is_text(s@)),
        s@.len() > 0 && s@.last() != '=' && r is Some ==> r->0@.len() == 5 * s@.len() / 8,
        s@.len() > 0 && s@.last() != '=' && r is Some ==> forall|i: int|
            0 <= i < 8 * r->0@.len() ==> #[trigger] bit(r->0@, i) == text_bit(s@, i),
{
    base32::decode(base32::Alphabet::RFC4648 { padding: false }, s)
}

/// Powers of two that single out the bits of a byte.
proof fn lemma_bit_weights()
    ensures
        pow2(0) == 1,
        pow2(1) == 2,
        pow2(2) == 4,
        pow2(3) == 8,
        pow2(4) == 16,
        pow2(5) == 32,
        pow2(6) == 64,
        pow2(7) == 128,
{
    lemma2_to64();
}

/// The bits of a byte by division.
pub proof fn lemma_byte_bits(b: u8)
    ensures
        byte_bit(b, 0) == (b / 128) % 2,
        byte_bit(b, 1) == (b / 64) % 2,
        byte_bit(b, 2) == (b / 32) % 2,
        byte_bit(b, 3) == (b / 16) % 2,
        byte_bit(b, 4) == (b / 8) % 2,
        byte_bit(b, 5) == (b / 4) % 2,
        byte_bit(b, 6) == (b / 2) % 2,
        byte_bit(b, 7) == b % 2,
        forall|j: int| 0 <= j < 8 ==> 0 <= #[trigger] byte_bit(b, j) <= 1,
{
    lemma_bit_weights();
    lemma_div_basics(b as int);
}

/// Bytes with the same bits are equal.
pub proof fn lemma_same_byte(a: u8, b: u8)
    ensures
        a == b <==> forall|j: int| 0 <= j < 8 ==> #[trigger] byte_bit(a, j) == byte_bit(b, j),
{
    if forall|j: int| 0 <= j < 8 ==> #[trigger] byte_bit(a, j) == byte_bit(b, j) {
        lemma_byte_bits(a);
        lemma_byte_bits(b);
        assert(byte_bit(a, 0) == byte_bit(b, 0));
        assert(byte_bit(a, 1) == byte_bit(b, 1));
        assert(byte_bit(a, 2) == byte_bit(b, 2));
        assert(byte_bit(a, 3) == byte_bit(b, 3));
        assert(byte_bit(a, 4) == byte_bit(b, 4));
        assert(byte_bit(a, 5) == byte_bit(b, 5));
        assert(byte_bit(a, 6) == byte_bit(b, 6));
        assert(byte_bit(a, 7) == byte_bit(b, 7));
        assert(a == b) by (bit_vector)
            requires
                (a / 128) % 2 == (b / 128) % 2,
                (a / 64) % 2 == (b / 64) % 2,
                (a / 32) % 2 == (b / 32) % 2,
                (a / 16) % 2 == (b / 16) % 2,
                (a / 8) % 2 == (b / 8) % 2,
                (a / 4) % 2 == (b / 4) % 2,
                (a / 2) % 2 == (b / 2) % 2,
                a % 2 == b % 2,
        ;
    }
}

/// The mask of the first `n` bits of a byte.
pub open spec fn top_mask(n: int) -> u8 {
    if n <= 0 {
        0
    } else {
        (256 - pow2((8 - n) as nat)) as u8
    }
}

/// The mask of the first `n` bits of a byte, by value.
pub proof fn lemma_top_mask(n: int)
    requires
        0 < n < 8,
    ensures
        top_mask(n) == (if n == 1 {
            0x80u8
        } else if n == 2 {
            0xc0u8
        } else if n == 3 {
            0xe0u8
        } else if n == 4 {
            0xf0u8
        } else if n == 5 {
            0xf8u8
        } else if n == 6 {
            0xfcu8
        } else {
            0xfeu8
        }),
        top_mask(n) != 0,
{
    lemma_bit_weights();
}

/// Bytes agree under a mask exactly when their first bits do.
pub proof fn lemma_masked_byte(a: u8, b: u8, n: int)
    requires
        0 < n < 8,
    ensures
        a & top_mask(n) == b & top_mask(n) <==> forall|j: int|
            0 <= j < n ==> #[trigger] byte_bit(a, j) == byte_bit(b, j),
{
    lemma_top_mask(n);
    lemma_byte_bits(a);
    lemma_byte_bits(b);
    let (b0, b1, b2, b3, b4, b5, b6): (bool, bool, bool, bool, bool, bool, bool) = (
        (a / 128) % 2 == (b / 128) % 2,
        (a / 64) % 2 == (b / 64) % 2,
        (a / 32) % 2 == (b / 32) % 2,
        (a / 16) % 2 == (b / 16) % 2,
        (a / 8) % 2 == (b / 8) % 2,
        (a / 4) % 2 == (b / 4) % 2,
        (a / 2) % 2 == (b / 2) % 2,
    );
    assert(b0 == (byte_bit(a, 0) == byte_bit(b, 0)));
    assert(b1 == (byte_bit(a, 1) == byte_bit(b, 1)));
    assert(b2 == (byte_bit(a, 2) == byte_bit(b, 2)));
    assert(b3 == (byte_bit(a, 3) == byte_bit(b, 3)));
    assert(b4 == (byte_bit(a, 4) == byte_bit(b, 4)));
    assert(b5 == (byte_bit(a, 5) == byte_bit(b, 5)));
    assert(b6 == (byte_bit(a, 6) == byte_bit(b, 6)));
    lemma_masks(a, b);
}

/// The seven masks of first bits.
proof fn lemma_masks(a: u8, b: u8)
    ensures
        (a & 0x80 == b & 0x80) == ((a / 128) % 2 == (b / 128) % 2),
        (a & 0xc0 == b & 0xc0) == ((a / 128) % 2 == (b / 128) % 2 && (a / 64) % 2 == (b / 64) % 2),
        (a & 0xe0 == b & 0xe0) == ((a / 128) % 2 == (b / 128) % 2 && (a / 64) % 2
            == (b / 64) % 2 && (a
            / 32) % 2 == (b / 32) % 2),
        (a & 0xf0 == b & 0xf0) == ((a / 128) % 2 == (b / 128) % 2 && (a / 64) % 2
            == (b / 64) % 2 && (a
            / 32) % 2 == (b / 32) % 2 && (a / 16) % 2 == (b / 16) % 2),
        (a & 0xf8 == b & 0xf8) == ((a / 128) % 2 == (b / 128) % 2 && (a / 64) % 2
            == (b / 64) % 2 && (a
            / 32) % 2 == (b / 32) % 2 && (a / 16) % 2 == (b / 16) % 2 && (a / 8) % 2
                == (b / 8) % 2),
        (a & 0xfc == b & 0xfc) == ((a / 128) % 2 == (b / 128) % 2 && (a / 64) % 2
            == (b / 64) % 2 && (a
            / 32) % 2 == (b / 32) % 2 && (a / 16) % 2 == (b / 16) % 2 && (a / 8) % 2
                == (b / 8) % 2 && (a
            / 4) % 2 == (b / 4) % 2),
        (a & 0xfe == b & 0xfe) == ((a / 128) % 2 == (b / 128) % 2 && (a / 64) % 2
            == (b / 64) % 2 && (a
            / 32) % 2 == (b / 32) % 2 && (a / 16) % 2 == (b / 16) % 2 && (a / 8) % 2
                == (b / 8) % 2 && (a
            / 4) % 2 == (b / 4) % 2 && (a / 2) % 2 == (b / 2) % 2),
{
    assert((a & 0x80 == b & 0x80) == ((a / 128) % 2 == (b / 128) % 2)) by (bit_vector);
    assert((a & 0xc0 == b & 0xc0) == ((a / 128) % 2 == (b / 128) % 2 && (a / 64) % 2
        == (b / 64) % 2))
        by (bit_vector);
    assert((a & 0xe0 == b & 0xe0) == ((a / 128) % 2 == (b / 128) % 2 && (a / 64) % 2 == (b / 64) % 2
        && (a / 32) % 2 == (b / 32) % 2)) by (bit_vector);
    assert((a & 0xf0 == b & 0xf0) == ((a / 128) % 2 == (b / 128) % 2 && (a / 64) % 2 == (b / 64) % 2
        && (a / 32) % 2 == (b / 32) % 2 && (a / 16) % 2 == (b / 16) % 2)) by (bit_vector);
    assert((a & 0xf8 == b & 0xf8) == ((a / 128) % 2 == (b / 128) % 2 && (a / 64) % 2 == (b / 64) % 2
        && (a / 32) % 2 == (b / 32) % 2 && (a / 16) % 2 == (b / 16) % 2 && (a / 8) % 2
            == (b / 8) % 2))
        by (bit_vector);
    assert((a & 0xfc == b & 0xfc) == ((a / 128) % 2 == (b / 128) % 2 && (a / 64) % 2 == (b / 64) % 2
        && (a / 32) % 2 == (b / 32) % 2 && (a / 16) % 2 == (b / 16) % 2 && (a / 8) % 2
            == (b / 8) % 2
        && (a / 4) % 2 == (b / 4) % 2)) by (bit_vector);
    assert((a & 0xfe == b & 0xfe) == ((a / 128) % 2 == (b / 128) % 2 && (a / 64) % 2 == (b / 64) % 2
        && (a / 32) % 2 == (b / 32) % 2 && (a / 16) % 2 == (b / 16) % 2 && (a / 8) % 2
            == (b / 8) % 2
        && (a / 4) % 2 == (b / 4) % 2 && (a / 2) % 2 == (b / 2) % 2)) by (bit_vector);
}

/// A group of five bits is the number of a character exactly when the bits agree.
pub proof fn lemma_same_group(data: Seq<u8>, s: Seq<char>, k: int)
    requires
        0 <= k < s.len(),
        symbol(s[k]) is Some,
    ensures
        symbol(s[k])->0 == group(data, k) <==> forall|i: int|
            5 * k <= i < 5 * k + 5 ==> #[trigger] bit(data, i) == text_bit(s, i),
        0 <= group(data, k) < 32,
{
    let v: int = symbol(s[k])->0;
    lemma_bit_weights();
    lemma_div_basics(v);
    assert(0 <= v < 32);
    assert(text_bit(s, 5 * k) == (v / 16) % 2);
    assert(text_bit(s, 5 * k + 1) == (v / 8) % 2);
    assert(text_bit(s, 5 * k + 2) == (v / 4) % 2);
    assert(text_bit(s, 5 * k + 3) == (v / 2) % 2);
    assert(text_bit(s, 5 * k + 4) == v % 2);
    lemma_bit_range(data, 5 * k);
    lemma_bit_range(data, 5 * k + 1);
    lemma_bit_range(data, 5 * k + 2);
    lemma_bit_range(data, 5 * k + 3);
    lemma_bit_range(data, 5 * k + 4);
    assert(v == 16 * ((v / 16) % 2) + 8 * ((v / 8) % 2) + 4 * ((v / 4) % 2) + 2 * ((v / 2) % 2)
        + v % 2);
    if forall|i: int| 5 * k <= i < 5 * k + 5 ==> #[trigger] bit(data, i) == text_bit(s, i) {
        assert(bit(data, 5 * k) == text_bit(s, 5 * k));
        assert(bit(data, 5 * k + 1) == text_bit(s, 5 * k + 1));
        assert(bit(data, 5 * k + 2) == text_bit(s, 5 * k + 2));
        assert(bit(data, 5 * k + 3) == text_bit(s, 5 * k + 3));
        assert(bit(data, 5 * k + 4) == text_bit(s, 5 * k + 4));
    }
    if v == group(data, k) {
        assert forall|i: int| 5 * k <= i < 5 * k + 5 implies #[trigger] bit(data, i) == text_bit(
            s,
            i,
        ) by {
            if i == 5 * k {
            } else if i == 5 * k + 1 {
            } else if i == 5 * k + 2 {
            } else if i == 5 * k + 3 {
            } else {
                assert(i == 5 * k + 4);
            }
        }
    }
}

proof fn lemma_bit_range(data: Seq<u8>, i: int)
    ensures
        0 <= bit(data, i) <= 1,
{
    if 0 <= i < 8 * data.len() {
        lemma_byte_bits(data[i / 8]);
        assert(0 <= byte_bit(data[i / 8], i % 8) <= 1);
    }
}

/// A group is a number of five bits.
pub proof fn lemma_group_range(data: Seq<u8>, k: int)
    ensures
        0 <= group(data, k) < 32,
{
    lemma_bit_range(data, 5 * k);
    lemma_bit_range(data, 5 * k + 1);
    lemma_bit_range(data, 5 * k + 2);
    lemma_bit_range(data, 5 * k + 3);
    lemma_bit_range(data, 5 * k + 4);
}

/// A byte is the sum of its bits.
proof fn lemma_byte_sum(b: u8)
    ensures
        b == 128 * byte_bit(b, 0) + 64 * byte_bit(b, 1) + 32 * byte_bit(b, 2) + 16 * byte_bit(b, 3)
            + 8 * byte_bit(b, 4) + 4 * byte_bit(b, 5) + 2 * byte_bit(b, 6) + byte_bit(b, 7),
{
    lemma_byte_bits(b);
    assert(b == 128 * ((b / 128) % 2) + 64 * ((b / 64) % 2) + 32 * ((b / 32) % 2) + 16 * ((b / 16)
        % 2) + 8 * ((b / 8) % 2) + 4 * ((b / 4) % 2) + 2 * ((b / 2) % 2) + b % 2) by (bit_vector);
}

/// A bit by the byte that it is in.
proof fn lemma_bit_at(data: Seq<u8>, q: int, j: int)
    requires
        0 <= q < data.len(),
        0 <= j < 8,
    ensures
        bit(data, 8 * q + j) == byte_bit(data[q], j),
{
    assert((8 * q + j) / 8 == q && (8 * q + j) % 8 == j);
}

/// The bits of a byte among others.
proof fn lemma_bits_of_byte(data: Seq<u8>, q: int)
    requires
        0 <= q < data.len(),
    ensures
        data[q] == 128 * bit(data, 8 * q) + 64 * bit(data, 8 * q + 1) + 32 * bit(data, 8 * q + 2)
            + 16 * bit(data, 8 * q + 3) + 8 * bit(data, 8 * q + 4) + 4 * bit(data, 8 * q + 5) + 2
            * bit(data, 8 * q + 6) + bit(data, 8 * q + 7),
{
    lemma_byte_sum(data[q]);
    lemma_bit_at(data, q, 0);
    lemma_bit_at(data, q, 1);
    lemma_bit_at(data, q, 2);
    lemma_bit_at(data, q, 3);
    lemma_bit_at(data, q, 4);
    lemma_bit_at(data, q, 5);
    lemma_bit_at(data, q, 6);
    lemma_bit_at(data, q, 7);
}

/// Eight groups of five bits spell the number that five bytes spell.
pub proof fn lemma_five_bytes(data: Seq<u8>, g: int)
    requires
        0 <= g,
        5 * g + 5 <= data.len(),
    ensures
        34359738368 * group(data, 8 * g) + 1073741824 * group(data, 8 * g + 1) + 33554432 * group(
            data,
            8 * g + 2,
        ) + 1048576 * group(data, 8 * g + 3) + 32768 * group(data, 8 * g + 4) + 1024 * group(
            data,
            8 * g + 5,
        ) + 32 * group(data, 8 * g + 6) + group(data, 8 * g + 7) == 4294967296 * data[5 * g]
            + 16777216 * data[5 * g + 1] + 65536 * data[5 * g + 2] + 256 * data[5 * g + 3] + data[5
            * g + 4],
{
    lemma_bits_of_byte(data, 5 * g);
    lemma_bits_of_byte(data, 5 * g + 1);
    lemma_bits_of_byte(data, 5 * g + 2);
    lemma_bits_of_byte(data, 5 * g + 3);
    lemma_bits_of_byte(data, 5 * g + 4);
}

/// The lower case of upper-case base32 is lower-case base32.
pub proof fn lemma_lower_letter(v: int)
    requires
        0 <= v < 32,
    ensures
        text::lower(upper_letter(v)) == letter(v),
        symbol(letter(v)) == Some(v),
        'a' <= letter(v) <= 'z' || '2' <= letter(v) <= '7',
{
}

/// A character of an address is the letter of its number.
pub proof fn lemma_letter_of_symbol(c: char)
    requires
        'a' <= c <= 'z' || '2' <= c <= '7',
    ensures
        symbol(c) is Some,
        0 <= symbol(c)->0 < 32,
        letter(symbol(c)->0) == c,
{
}

} // verus!
