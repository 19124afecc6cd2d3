//! A prefix and the memory that a launch fills for it.
use vstd::prelude::*;
use vstd::utf8::*;

use crate::alphabet;
use crate::kernel;
use crate::kernel::{BytePrefix, OUT_SLOTS};
use crate::onion;
use crate::text;
use crate::text::{chars_of, string_of};

verus! {

/// A prefix in bits, with the slots for its matches.
pub struct BytePrefixOwned {
    /// The bytes that the prefix decodes to, two characters longer than the prefix.
    pub byte_prefix: Vec<u8>,
    /// How many bytes the prefix constrains in full.
    pub last_byte_idx: usize,
    /// The constrained bits of the byte after those; zero if there are none.
    pub last_byte_mask: u8,
    /// [`OUT_SLOTS`] slots of 32 bytes, one for each match claimed in a launch.
    pub out: Vec<u8>,
    /// How many matches were claimed, reset after each launch.
    pub found: u32,
}

/// Why a prefix has no bits.
pub enum PrefixError {
    /// The prefix is not base32.
    NotBase32 {
        /// The prefix as given.
        prefix: String,
    },
}

/// The text that is decoded for a prefix: two more characters, so that the last constrained byte
/// is whole.
pub open spec fn padded(s: Seq<char>) -> Seq<char> {
    s + seq!['a', 'a']
}

impl BytePrefixOwned {
    /// The bits and masks are those of a prefix.
    pub open spec fn constrains(self, s: Seq<char>) -> bool {
        &&& self.byte_prefix@.len() == 5 * (s.len() + 2) / 8
        &&& forall|i: int|
            0 <= i < 8 * self.byte_prefix@.len() ==> #[trigger] alphabet::bit(self.byte_prefix@, i)
                == alphabet::text_bit(padded(s), i)
        &&& self.last_byte_idx == 5 * s.len() / 8
        &&& self.last_byte_mask == alphabet::top_mask((5 * s.len() % 8) as int)
    }

    /// The bits of a prefix, with empty slots.
    ///
    /// A prefix that passed [`onion::normalize_prefix`] always has them.
    pub fn new(s: &str) -> (r: Result<BytePrefixOwned, PrefixError>)
        requires
            5 * (encode_utf8(s@).len() + 2) <= usize::MAX,
        ensures
            r is Ok <==> alphabet::is_text(s@),
            r is Ok ==> {
                &&& r->Ok_0.constrains(s@)
                &&& r->Ok_0.out@ == Seq::new((32 * OUT_SLOTS) as nat, |i: int| 0u8)
                &&& r->Ok_0.found == 0
            },
            r is Err ==> r->Err_0->prefix@ == s@,
    {
        let mut longer = chars_of(s);
        longer.push('a');
        longer.push('a');
        proof {
            assert(longer@ =~= padded(s@));
            lemma_padded_bytes(s@);
            assert(padded(s@)[s@.len() as int] == 'a');
            if alphabet::is_text(padded(s@)) {
                assert forall|i: int| 0 <= i < s@.len() implies alphabet::symbol(
                    #[trigger] s@[i],
                ) is Some by {
                    assert(padded(s@)[i] == s@[i]);
                }
            }
        }
        let text = string_of(longer);
        match alphabet::decode(text.as_str()) {
            None => Err(PrefixError::NotBase32 { prefix: string_of(chars_of(s)) }),
            Some(byte_prefix) => {
                let n: usize = s.len();
                proof {
                    lemma_text_is_ascii(s@);
                }
                let last_byte_idx: usize = 5 * n / 8;
                let n_bits: usize = (5 * n) % 8;
                let last_byte_mask: u8 = mask_of_bits(n_bits);
                let mut out: Vec<u8> = Vec::new();
                let mut i: usize = 0;
                while i < 32 * OUT_SLOTS as usize
                    invariant
                        i <= 32 * OUT_SLOTS,
                        out@ == Seq::new(i as nat, |k: int| 0u8),
                    decreases 32 * OUT_SLOTS - i,
                {
                    out.push(0);
                    i += 1;
                    assert(out@ =~= Seq::new(i as nat, |k: int| 0u8));
                }
                Ok(BytePrefixOwned { byte_prefix, last_byte_idx, last_byte_mask, out, found: 0 })
            },
        }
    }

    /// The prefix as the kernels see it.
    pub fn as_byte_prefix(&self) -> (r: BytePrefix)
        ensures
            r.byte_prefix@ == self.byte_prefix@,
            r.last_byte_idx == self.last_byte_idx,
            r.last_byte_mask == self.last_byte_mask,
            r.out@ == self.out@,
            r.found == self.found,
    {
        BytePrefix {
            byte_prefix: copy_bytes(&self.byte_prefix),
            last_byte_idx: self.last_byte_idx,
            last_byte_mask: self.last_byte_mask,
            out: copy_bytes(&self.out),
            found: self.found,
        }
    }

    /// Takes the matches of a launch and resets the counter. Returns the stored matches and how
    /// many were claimed, which is more if there were more than slots.
    pub fn drain(&mut self) -> (r: (Vec<[u8; 32]>, u32))
        requires
            old(self).out@.len() == 32 * OUT_SLOTS,
        ensures
            r.1 == old(self).found,
            r.0@.len() == (if old(self).found < OUT_SLOTS {
                old(self).found
            } else {
                OUT_SLOTS
            }),
            forall|k: int|
                0 <= k < r.0@.len() ==> (#[trigger] r.0@[k])@ == old(self).out@.subrange(
                    32 * k,
                    32 * k + 32,
                ),
            final(self).found == 0,
            final(self).byte_prefix@ == old(self).byte_prefix@,
            final(self).last_byte_idx == old(self).last_byte_idx,
            final(self).last_byte_mask == old(self).last_byte_mask,
            final(self).out@ == old(self).out@,
    {
        let claimed: u32 = self.found;
        let mut results: Vec<[u8; 32]> = Vec::new();
        if claimed == 0 {
            return (results, 0);
        }
        self.found = 0;
        let stored: usize = if claimed < OUT_SLOTS {
            claimed as usize
        } else {
            OUT_SLOTS as usize
        };
        let mut k: usize = 0;
        while k < stored
            invariant
                k <= stored,
                stored <= OUT_SLOTS,
                self.out@.len() == 32 * OUT_SLOTS,
                results@.len() == k,
                forall|i: int|
                    0 <= i < k ==> (#[trigger] results@[i])@ == self.out@.subrange(
                        32 * i,
                        32 * i + 32,
                    ),
            decreases stored - k,
        {
            let mut a: [u8; 32] = [0u8; 32];
            let mut i: usize = 0;
            while i < 32
                invariant
                    i <= 32,
                    k < stored,
                    stored <= OUT_SLOTS,
                    self.out@.len() == 32 * OUT_SLOTS,
                    forall|j: int| 0 <= j < i ==> #[trigger] a@[j] == self.out@[32 * k + j],
                decreases 32 - i,
            {
                a[i] = self.out[32 * k + i];
                i += 1;
            }
            assert(a@ =~= self.out@.subrange(32 * k as int, 32 * k + 32));
            results.push(a);
            k += 1;
        }
        (results, claimed)
    }
}

/// Two ASCII characters are two bytes.
proof fn lemma_padded_bytes(s: Seq<char>)
    ensures
        encode_utf8(padded(s)).len() == encode_utf8(s).len() + 2,
{
    let aa = seq!['a', 'a'];
    text::lemma_utf8_concat(s, aa);
    is_ascii_chars_encode_utf8(aa);
}

/// Base32 is ASCII: a byte to a character.
proof fn lemma_text_is_ascii(s: Seq<char>)
    requires
        alphabet::is_text(s),
    ensures
        encode_utf8(s).len() == s.len(),
{
    assert forall|i: int| 0 <= i < s.len() implies 0 <= (#[trigger] s[i]) as u32 && (s[i] as u32)
        < 0x80 by {
        assert(alphabet::symbol(s[i]) is Some);
    }
    is_ascii_chars_encode_utf8(s);
}

/// The mask of the first bits of a byte.
fn mask_of_bits(n_bits: usize) -> (r: u8)
    requires
        n_bits < 8,
    ensures
        r == alphabet::top_mask(n_bits as int),
{
    if n_bits > 0 {
        proof {
            alphabet::lemma_top_mask(n_bits as int);
            lemma_mask_shifts();
        }
        ((1u8 << n_bits) - 1) << (8 - n_bits)
    } else {
        0
    }
}

proof fn lemma_mask_shifts()
    ensures
        1u8 << 1usize == 2,
        1u8 << 2usize == 4,
        1u8 << 3usize == 8,
        1u8 << 4usize == 16,
        1u8 << 5usize == 32,
        1u8 << 6usize == 64,
        1u8 << 7usize == 128,
        3u8 << 6usize == 0xc0,
        7u8 << 5usize == 0xe0,
        15u8 << 4usize == 0xf0,
        31u8 << 3usize == 0xf8,
        63u8 << 2usize == 0xfc,
        127u8 << 1usize == 0xfe,
{
    assert(1u8 << 1usize == 2 && 1u8 << 2usize == 4 && 1u8 << 3usize == 8 && 1u8 << 4usize == 16
        && 1u8 << 5usize == 32 && 1u8 << 6usize == 64 && 1u8 << 7usize == 128
        && 3u8 << 6usize == 0xc0 && 7u8 << 5usize == 0xe0 && 15u8 << 4usize == 0xf0
        && 31u8 << 3usize == 0xf8 && 63u8 << 2usize == 0xfc && 127u8 << 1usize == 0xfe) by (bit_vector);
}

/// A copy of bytes.
fn copy_bytes(s: &Vec<u8>) -> (r: Vec<u8>)
    ensures
        r@ == s@,
{
    let mut r: Vec<u8> = Vec::new();
    let mut i: usize = 0;
    while i < s.len()
        invariant
            i <= s@.len(),
            r@ == s@.take(i as int),
        decreases s@.len() - i,
    {
        r.push(s[i]);
        i += 1;
        assert(r@ =~= s@.take(i as int));
    }
    assert(s@.take(s@.len() as int) =~= s@);
    r
}

/// A kernel's view of the memory of a prefix.
pub open spec fn views(o: BytePrefixOwned, b: BytePrefix) -> bool {
    &&& b.byte_prefix@ == o.byte_prefix@
    &&& b.last_byte_idx == o.last_byte_idx
    &&& b.last_byte_mask == o.last_byte_mask
}

/// The bits of an accepted prefix lie within a public key.
pub proof fn lemma_constrains_wf(o: BytePrefixOwned, b: BytePrefix, s: Seq<char>)
    requires
        onion::valid_prefix(s),
        o.constrains(s),
        views(o, b),
        b.out@.len() == 32 * OUT_SLOTS,
    ensures
        b.wf(),
{
    if 5 * s.len() % 8 != 0 {
        alphabet::lemma_top_mask((5 * s.len() % 8) as int);
    }
}

/// A kernel's test compares the first bits of the data with those of the prefix.
proof fn lemma_fits_bits(o: BytePrefixOwned, b: BytePrefix, s: Seq<char>, key: Seq<u8>)
    requires
        onion::valid_prefix(s),
        o.constrains(s),
        views(o, b),
        key.len() == 32,
    ensures
        b.fits(key) <==> forall|i: int|
            0 <= i < 5 * s.len() ==> #[trigger] alphabet::bit(key, i) == alphabet::text_bit(s, i),
{
    let n: int = 5 * s.len() as int;
    let d = b.byte_prefix@;
    let idx: int = b.last_byte_idx as int;
    let m: int = n % 8;
    assert forall|i: int| 0 <= i < n implies #[trigger] alphabet::bit(d, i) == alphabet::text_bit(
        s,
        i,
    ) by {
        assert(padded(s)[i / 5] == s[i / 5]);
    }
    if b.fits(key) {
        assert forall|i: int| 0 <= i < n implies #[trigger] alphabet::bit(key, i)
            == alphabet::text_bit(s, i) by {
            assert(alphabet::bit(d, i) == alphabet::text_bit(s, i));
            let q: int = i / 8;
            if q < idx {
                assert(key[q] == d[q]);
            } else {
                assert(q == idx && i % 8 < m);
                alphabet::lemma_top_mask(m);
                alphabet::lemma_masked_byte(key[q], d[q], m);
                assert(alphabet::byte_bit(key[q], i % 8) == alphabet::byte_bit(d[q], i % 8));
            }
        }
    }
    if forall|i: int|
        0 <= i < n ==> #[trigger] alphabet::bit(key, i) == alphabet::text_bit(s, i) {
        assert forall|q: int| 0 <= q < idx implies #[trigger] key[q] == d[q] by {
            assert forall|j: int| 0 <= j < 8 implies #[trigger] alphabet::byte_bit(key[q], j)
                == alphabet::byte_bit(d[q], j) by {
                let i: int = 8 * q + j;
                assert(alphabet::bit(key, i) == alphabet::text_bit(s, i));
                assert(alphabet::bit(d, i) == alphabet::text_bit(s, i));
                assert(i / 8 == q && i % 8 == j);
            }
            alphabet::lemma_same_byte(key[q], d[q]);
        }
        if m > 0 {
            assert forall|j: int| 0 <= j < m implies #[trigger] alphabet::byte_bit(key[idx], j)
                == alphabet::byte_bit(d[idx], j) by {
                let i: int = 8 * idx + j;
                assert(alphabet::bit(key, i) == alphabet::text_bit(s, i));
                assert(alphabet::bit(d, i) == alphabet::text_bit(s, i));
                assert(i / 8 == idx && i % 8 == j);
            }
            alphabet::lemma_top_mask(m);
            alphabet::lemma_masked_byte(key[idx], d[idx], m);
        }
    }
}

/// An address starts with a prefix exactly when the first bits of the public key are those of
/// the prefix.
proof fn lemma_address_bits(s: Seq<char>, key: Seq<u8>, digest: Seq<u8>)
    requires
        onion::valid_prefix(s),
        key.len() == 32,
    ensures
        s.is_prefix_of(onion::onion_text(key, digest)) <==> forall|i: int|
            0 <= i < 5 * s.len() ==> #[trigger] alphabet::bit(key, i) == alphabet::text_bit(s, i),
{
    let t = onion::onion_text(key, digest);
    let data = onion::onion_bytes(key, digest);
    onion::lemma_address_shape(key, digest);
    assert forall|i: int| 0 <= i < 256 implies #[trigger] alphabet::bit(data, i) == alphabet::bit(
        key,
        i,
    ) by {
        assert(data[i / 8] == key[i / 8]);
    }
    assert forall|k: int| 0 <= k < s.len() implies (#[trigger] s[k] == t[k] <==> forall|i: int|
        5 * k <= i < 5 * k + 5 ==> #[trigger] alphabet::bit(data, i) == alphabet::text_bit(
            s,
            i,
        )) by {
        assert(onion::onion_char(s[k]));
        alphabet::lemma_letter_of_symbol(s[k]);
        alphabet::lemma_same_group(data, s, k);
        alphabet::lemma_lower_letter(alphabet::group(data, k));
        assert(t[k] == alphabet::letter(alphabet::group(data, k)));
    }
    if s.is_prefix_of(t) {
        assert forall|i: int| 0 <= i < 5 * s.len() implies #[trigger] alphabet::bit(key, i)
            == alphabet::text_bit(s, i) by {
            let k: int = i / 5;
            assert(s[k] == t.subrange(0, s.len() as int)[k]);
            assert(s[k] == t[k]);
            assert(alphabet::bit(data, i) == alphabet::text_bit(s, i));
        }
    }
    if forall|i: int|
        0 <= i < 5 * s.len() ==> #[trigger] alphabet::bit(key, i) == alphabet::text_bit(s, i) {
        assert forall|k: int| 0 <= k < s.len() implies #[trigger] s[k] == t[k] by {
            assert forall|i: int| 5 * k <= i < 5 * k + 5 implies #[trigger] alphabet::bit(data, i)
                == alphabet::text_bit(s, i) by {
                assert(alphabet::bit(key, i) == alphabet::text_bit(s, i));
            }
        }
        assert(s =~= t.subrange(0, s.len() as int));
    }
}

/// What the kernels look for is what the address shows: a public key fits the bits of a prefix
/// exactly when its address starts with the prefix.
pub proof fn lemma_fits_is_prefix(
    o: BytePrefixOwned,
    b: BytePrefix,
    s: Seq<char>,
    key: Seq<u8>,
    digest: Seq<u8>,
)
    requires
        onion::valid_prefix(s),
        o.constrains(s),
        views(o, b),
        key.len() == 32,
    ensures
        b.fits(key) <==> s.is_prefix_of(onion::onion_text(key, digest)),
{
    lemma_fits_bits(o, b, s, key);
    lemma_address_bits(s, key, digest);
}

/// The checksum is out of reach of a prefix: the first [`onion::MAX_PREFIX_CHARS`] characters of an
/// address depend on the public key alone.
pub proof fn lemma_checksum_out_of_reach(key: Seq<u8>, d: Seq<u8>, e: Seq<u8>)
    requires
        key.len() == 32,
    ensures
        onion::onion_text(key, d).take(onion::MAX_PREFIX_CHARS as int) == onion::onion_text(
            key,
            e,
        ).take(onion::MAX_PREFIX_CHARS as int),
{
    let s = onion::onion_text(key, d).take(onion::MAX_PREFIX_CHARS as int);
    let t = onion::onion_text(key, e);
    onion::lemma_address_shape(key, d);
    onion::lemma_address_shape(key, e);
    assert forall|i: int| 0 <= i < s.len() implies onion::onion_char(#[trigger] s[i]) by {
        assert(onion::onion_char(onion::onion_text(key, d)[i]));
    }
    lemma_address_bits(s, key, d);
    lemma_address_bits(s, key, e);
    assert(s =~= onion::onion_text(key, d).subrange(0, s.len() as int));
    assert(s.is_prefix_of(t));
    assert(s =~= t.take(onion::MAX_PREFIX_CHARS as int));
}

/// An accepted prefix has bits.
pub proof fn lemma_accepted_is_text(s: Seq<char>)
    requires
        onion::valid_prefix(s),
    ensures
        alphabet::is_text(s),
{
    assert forall|i: int| 0 <= i < s.len() implies alphabet::symbol(#[trigger] s[i]) is Some by {
        assert(onion::onion_char(s[i]));
    }
}

/// Matches never overwrite one another: after a launch that starts with empty slots and claims
/// fewer than `2^32` matches, the counter says how many there were, and the slots hold the first
/// of them, in order.
pub proof fn lemma_launch_hands_back(
    before: BytePrefix,
    keys: Seq<Seq<u8>>,
    after: BytePrefix,
    k: int,
)
    requires
        before.wf(),
        before.found == 0,
        before.recorded(keys, after),
        keys.len() < 0x100000000,
        forall|i: int| 0 <= i < keys.len() ==> (#[trigger] keys[i]).len() == 32,
        0 <= k < keys.len(),
        k < OUT_SLOTS,
    ensures
        after.found == keys.len(),
        after.out@.subrange(32 * k, 32 * k + 32) == keys[k],
{
    lemma_slots_hold_first(before.out@, keys, k);
}

proof fn lemma_slots_hold_first(out: Seq<u8>, keys: Seq<Seq<u8>>, k: int)
    requires
        out.len() == 32 * OUT_SLOTS,
        keys.len() < 0x100000000,
        forall|i: int| 0 <= i < keys.len() ==> (#[trigger] keys[i]).len() == 32,
        0 <= k < keys.len(),
        k < OUT_SLOTS,
    ensures
        kernel::out_after(out, 0, keys).subrange(32 * k, 32 * k + 32) == keys[k],
    decreases keys.len(),
{
    let last: int = keys.len() - 1;
    let rest = keys.drop_last();
    let prev = kernel::out_after(out, 0, rest);
    let now = kernel::out_after(out, 0, keys);
    assert forall|i: int| 0 <= i < rest.len() implies (#[trigger] rest[i]).len() == 32 by {
        assert(rest[i] == keys[i]);
    }
    lemma_out_after_len(out, rest);
    assert(last % 0x100000000 == last);
    assert(keys.last().len() == 32);
    if k == last {
        assert(now.subrange(32 * k, 32 * k + 32) =~= keys[k]);
    } else {
        lemma_slots_hold_first(out, rest, k);
        assert(now.subrange(32 * k, 32 * k + 32) =~= prev.subrange(32 * k, 32 * k + 32));
    }
}

proof fn lemma_out_after_len(out: Seq<u8>, keys: Seq<Seq<u8>>)
    requires
        out.len() == 32 * OUT_SLOTS,
        keys.len() < 0x100000000,
        forall|i: int| 0 <= i < keys.len() ==> (#[trigger] keys[i]).len() == 32,
    ensures
        kernel::out_after(out, 0, keys).len() == out.len(),
    decreases keys.len(),
{
    if keys.len() > 0 {
        let rest = keys.drop_last();
        assert forall|i: int| 0 <= i < rest.len() implies (#[trigger] rest[i]).len() == 32 by {
            assert(rest[i] == keys[i]);
        }
        lemma_out_after_len(out, rest);
        assert(keys.last().len() == 32);
    }
}

} // verus!
