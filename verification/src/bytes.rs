//! Little-endian numbers in bytes.
use byteorder::{ByteOrder, LittleEndian};
use vstd::arithmetic::div_mod::*;
use vstd::arithmetic::mul::*;
use vstd::arithmetic::power2::*;
use vstd::prelude::*;
use vstd::slice::slice_subrange;

verus! {

/// The little-endian number in the bytes from position `i` on.
pub open spec fn le_from(s: Seq<u8>, i: int) -> int
    decreases s.len() - i,
{
    if 0 <= i < s.len() {
        s[i] + 256 * le_from(s, i + 1)
    } else {
        0
    }
}

/// The little-endian number that bytes spell.
pub open spec fn le_value(s: Seq<u8>) -> int {
    le_from(s, 0)
}

/// The number in `n` bytes is below `2^(8 n)`.
pub proof fn lemma_le_bound(s: Seq<u8>, i: int)
    requires
        0 <= i <= s.len(),
    ensures
        0 <= le_from(s, i) < pow2((8 * (s.len() - i)) as nat),
    decreases s.len() - i,
{
    if i < s.len() {
        lemma_le_bound(s, i + 1);
        lemma_pow2_adds(8, (8 * (s.len() - (i + 1))) as nat);
        lemma2_to64();
    } else {
        lemma2_to64();
    }
}

/// Bytes of the same length that spell the same number are the same bytes.
pub proof fn lemma_le_unique(a: Seq<u8>, b: Seq<u8>)
    requires
        a.len() == b.len(),
        le_value(a) == le_value(b),
    ensures
        a == b,
{
    assert forall|k: int| 0 <= k < a.len() implies a[k] == b[k] by {
        lemma_le_unique_at(a, b, 0, k);
    }
    assert(a =~= b);
}

proof fn lemma_le_unique_at(a: Seq<u8>, b: Seq<u8>, i: int, k: int)
    requires
        a.len() == b.len(),
        0 <= i <= k < a.len(),
        le_from(a, i) == le_from(b, i),
    ensures
        a[k] == b[k],
    decreases k - i,
{
    assert(le_from(a, i) == a[i] + 256 * le_from(a, i + 1));
    assert(le_from(b, i) == b[i] + 256 * le_from(b, i + 1));
    if i < k {
        lemma_le_unique_at(a, b, i + 1, k);
    }
}

/// The number from position `i` on, without the bytes before it.
pub proof fn lemma_le_shift(s: Seq<u8>, i: int, k: nat)
    requires
        0 <= i,
        i + k <= s.len(),
    ensures
        le_from(s, i) / (pow2(8 * k) as int) == le_from(s, i + k),
    decreases k,
{
    lemma_le_bound(s, i);
    lemma_le_bound(s, i + k);
    if k == 0 {
        lemma2_to64();
    } else {
        let rest: int = le_from(s, i + 1);
        let j: nat = (k - 1) as nat;
        lemma_le_shift(s, i + 1, j);
        lemma_pow2_adds(8, 8 * j);
        lemma2_to64();
        lemma_pow2_pos(8 * j);
        lemma_div_denominator(le_from(s, i), 256, pow2(8 * j) as int);
        assert(le_from(s, i) / 256 == rest);
    }
}

/// Bit `i` of a little-endian number is a bit of one of its bytes.
pub proof fn lemma_le_bit(s: Seq<u8>, i: nat)
    requires
        i < 8 * s.len(),
    ensures
        (le_value(s) / (pow2(i) as int)) % 2 == (s[(i / 8) as int] / (pow2(i % 8) as u8)) % 2,
        pow2(i % 8) <= 128,
{
    let k: nat = i / 8;
    let j: nat = i % 8;
    lemma_le_shift(s, 0, k);
    lemma_pow2_adds(8 * k, j);
    lemma_pow2_pos(8 * k);
    lemma_pow2_pos(j);
    lemma2_to64();
    lemma_le_bound(s, 0);
    lemma_div_denominator(le_value(s), pow2(8 * k) as int, pow2(j) as int);
    let b: int = s[k as int] as int;
    let rest: int = le_from(s, k as int + 1);
    assert(le_from(s, k as int) == b + 256 * rest);
    lemma_low_bits(b, rest, j);
}

/// The bytes above do not reach the bits of a byte.
proof fn lemma_low_bits(b: int, rest: int, j: nat)
    requires
        j < 8,
    ensures
        ((b + 256 * rest) / (pow2(j) as int)) % 2 == (b / (pow2(j) as int)) % 2,
{
    let m: int = pow2(j) as int;
    let k: nat = (7 - j) as nat;
    let c: int = pow2(k) as int * rest;
    lemma_pow2_pos(j);
    lemma_pow2_adds(j, k);
    lemma2_to64();
    lemma_hoist_over_denominator(b, 2 * c, m as nat);
    assert((2 * c) * m == 256 * rest) by {
        lemma_mul_is_associative(2, c, m);
        lemma_mul_is_commutative(c, m);
        lemma_mul_is_associative(m, pow2(k) as int, rest);
    }
}

/// The number in 32 bytes, written out.
pub proof fn lemma_le_value_32(s: Seq<u8>)
    requires
        s.len() == 32,
    ensures
        le_value(s) == s[0]
            + 0x100int * s[1]
            + 0x10000int * s[2]
            + 0x1000000int * s[3]
            + 0x100000000int * s[4]
            + 0x10000000000int * s[5]
            + 0x1000000000000int * s[6]
            + 0x100000000000000int * s[7]
            + 0x10000000000000000int * s[8]
            + 0x1000000000000000000int * s[9]
            + 0x100000000000000000000int * s[10]
            + 0x10000000000000000000000int * s[11]
            + 0x1000000000000000000000000int * s[12]
            + 0x100000000000000000000000000int * s[13]
            + 0x10000000000000000000000000000int * s[14]
            + 0x1000000000000000000000000000000int * s[15]
            + 0x100000000000000000000000000000000int * s[16]
            + 0x10000000000000000000000000000000000int * s[17]
            + 0x1000000000000000000000000000000000000int * s[18]
            + 0x100000000000000000000000000000000000000int * s[19]
            + 0x10000000000000000000000000000000000000000int * s[20]
            + 0x1000000000000000000000000000000000000000000int * s[21]
            + 0x100000000000000000000000000000000000000000000int * s[22]
            + 0x10000000000000000000000000000000000000000000000int * s[23]
            + 0x1000000000000000000000000000000000000000000000000int * s[24]
            + 0x100000000000000000000000000000000000000000000000000int * s[25]
            + 0x10000000000000000000000000000000000000000000000000000int * s[26]
            + 0x1000000000000000000000000000000000000000000000000000000int * s[27]
            + 0x100000000000000000000000000000000000000000000000000000000int * s[28]
            + 0x10000000000000000000000000000000000000000000000000000000000int * s[29]
            + 0x1000000000000000000000000000000000000000000000000000000000000int * s[30]
            + 0x100000000000000000000000000000000000000000000000000000000000000int * s[31],
{
    reveal_with_fuel(le_from, 33);
}

/// The number in 8 bytes, written out.
pub proof fn lemma_le_value_8(s: Seq<u8>)
    requires
        s.len() == 8,
    ensures
        le_value(s) == s[0]
            + 0x100int * s[1]
            + 0x10000int * s[2]
            + 0x1000000int * s[3]
            + 0x100000000int * s[4]
            + 0x10000000000int * s[5]
            + 0x1000000000000int * s[6]
            + 0x100000000000000int * s[7],
        0 <= le_value(s) < 0x10000000000000000,
{
    reveal_with_fuel(le_from, 9);
}

/// The number in 32 bytes from its four words of 8 bytes.
pub proof fn lemma_le_words(s: Seq<u8>)
    requires
        s.len() == 32,
    ensures
        le_value(s) == le_value(s.subrange(0, 8)) + 0x10000000000000000int * le_value(
            s.subrange(8, 16),
        ) + 0x100000000000000000000000000000000int * le_value(s.subrange(16, 24))
            + 0x1000000000000000000000000000000000000000000000000int * le_value(s.subrange(24, 32)),
        0 <= le_value(s) < two_256(),
{
    lemma_le_value_32(s);
    lemma_le_value_8(s.subrange(0, 8));
    lemma_le_value_8(s.subrange(8, 16));
    lemma_le_value_8(s.subrange(16, 24));
    lemma_le_value_8(s.subrange(24, 32));
}

/// `2^256`, the number of values of 32 bytes.
pub open spec fn two_256() -> int {
    0x10000000000000000000000000000000000000000000000000000000000000000int
}

/// A number in little-endian bytes, the lowest `len` of them.
pub open spec fn le_bytes(n: int, len: nat) -> Seq<u8>
    decreases len,
{
    if len == 0 {
        Seq::empty()
    } else {
        seq![(n % 256) as u8] + le_bytes(n / 256, (len - 1) as nat)
    }
}

/// Bytes are those of the number that they spell.
pub proof fn lemma_le_bytes(s: Seq<u8>)
    ensures
        le_bytes(le_value(s), s.len()) == s,
    decreases s.len(),
{
    if s.len() > 0 {
        let rest = s.subrange(1, s.len() as int);
        lemma_le_tail(s, 1);
        lemma_le_bytes(rest);
        assert(le_value(s) == s[0] + 256 * le_from(s, 1));
        assert(le_value(s) % 256 == s[0]);
        assert(le_value(s) / 256 == le_value(rest));
        assert(le_bytes(le_value(s), s.len()) =~= s);
    } else {
        assert(s =~= Seq::empty());
    }
}

/// The number in the tail of a sequence.
pub proof fn lemma_le_tail(s: Seq<u8>, i: int)
    requires
        1 <= i <= s.len(),
    ensures
        le_from(s, i) == le_from(s.subrange(1, s.len() as int), i - 1),
    decreases s.len() - i,
{
    if i < s.len() {
        lemma_le_tail(s, i + 1);
    }
}

/// The bytes of a number have the length asked for.
pub proof fn lemma_le_bytes_len(n: int, len: nat)
    ensures
        le_bytes(n, len).len() == len,
    decreases len,
{
    if len > 0 {
        lemma_le_bytes_len(n / 256, (len - 1) as nat);
    }
}

/// The bytes of a number spell it, if they are enough.
pub proof fn lemma_le_value_of_bytes(n: int, len: nat)
    requires
        0 <= n < pow2(8 * len),
    ensures
        le_value(le_bytes(n, len)) == n,
    decreases len,
{
    lemma2_to64();
    if len > 0 {
        let k: nat = (len - 1) as nat;
        let s = le_bytes(n, len);
        let rest = le_bytes(n / 256, k);
        lemma_pow2_adds(8, 8 * k);
        lemma_le_bytes_len(n, len);
        lemma_le_bytes_len(n / 256, k);
        lemma_le_value_of_bytes(n / 256, k);
        lemma_le_tail(s, 1);
        assert(s.subrange(1, len as int) =~= rest);
        assert(le_value(s) == s[0] + 256 * le_from(s, 1));
    }
}

/// The number of values of 32 bytes, as a power of two.
pub proof fn lemma_two_256()
    ensures
        pow2(256) == two_256(),
{
    lemma2_to64();
    lemma_pow2_adds(64, 64);
    lemma_square_literal(
        pow2(64) as int,
        0x10000000000000000int,
        0x100000000000000000000000000000000int,
    );
    lemma_pow2_adds(128, 128);
    lemma_square_literal(pow2(128) as int, 0x100000000000000000000000000000000int, two_256());
}

proof fn lemma_square_literal(a: int, b: int, c: int)
    requires
        a == b,
        b * b == c,
    ensures
        a * a == c,
{
}

/// Reads a number of 8 bytes: `byteorder::LittleEndian::read_u64`, which reads the first 8 bytes
/// of a buffer that has at least so many.
#[verifier::external_body]
pub(crate) fn read_u64(buf: &[u8]) -> (r: u64)
    requires
        buf@.len() >= 8,
    ensures
        r == le_value(buf@.subrange(0, 8)),
{
    LittleEndian::read_u64(buf)
}

/// Writes a number in 8 bytes: `byteorder::LittleEndian::write_u64`, which writes the first 8
/// bytes of a buffer; this one has exactly 8.
#[verifier::external_body]
pub(crate) fn write_u64(buf: &mut [u8; 8], n: u64)
    ensures
        le_value(final(buf)@) == n,
{
    LittleEndian::write_u64(buf, n);
}

/// Appends the bytes of an array.
pub fn push_bytes<const N: usize>(v: &mut Vec<u8>, s: &[u8; N])
    ensures
        final(v)@ == old(v)@ + s@,
{
    let ghost v0 = v@;
    let mut i: usize = 0;
    assert(v@ =~= v0 + s@.take(0));
    while i < N
        invariant
            i <= N,
            v@ == v0 + s@.take(i as int),
        decreases N - i,
    {
        v.push(s[i]);
        i += 1;
        assert(v@ =~= v0 + s@.take(i as int));
    }
    assert(s@.take(N as int) =~= s@);
}

/// Adds a number to a little-endian number of 256 bits, modulo `2^256`.
pub fn add_u256(base: &[u8; 32], offset: u64) -> (res: [u8; 32])
    ensures
        le_value(res@) == (le_value(base@) + offset) % two_256(),
        le_value(res@) == le_value(base@) + offset || le_value(res@) == le_value(base@) + offset
            - 0x10000000000000000000000000000000000000000000000000000000000000000int,
        res@ == le_bytes((le_value(base@) + offset) % two_256(), 32),
{
    let mut res: [u8; 32] = [0; 32];
    let mut carry: u64 = offset;
    let mut i: usize = 0;
    let ghost mut w: Seq<int> = Seq::empty();
    let ghost mut c: Seq<int> = seq![offset as int];
    while i < 4
        invariant
            i <= 4,
            w.len() == i,
            c.len() == i + 1,
            c[0] == offset,
            c[i as int] == carry,
            i > 0 ==> carry <= 1,
            forall|k: int|
                #![trigger w[k]]
                0 <= k < i ==> {
                    &&& w[k] == le_value(res@.subrange(8 * k, 8 * k + 8))
                    &&& w[k] + 0x10000000000000000int * c[k + 1] == le_value(
                        base@.subrange(8 * k, 8 * k + 8),
                    ) + c[k]
                },
        decreases 4 - i,
    {
        let start: usize = i * 8;
        let end: usize = (i + 1) * 8;
        let ghost old_res = res@;
        let word: u64 = read_u64(slice_subrange(base.as_slice(), start, end));
        proof {
            assert(base@.subrange(start as int, end as int).subrange(0, 8) =~= base@.subrange(
                8 * i as int,
                8 * i + 8,
            ));
        }
        let total: u64 = word.wrapping_add(carry);
        let mut out: [u8; 8] = [0; 8];
        write_u64(&mut out, total);
        let mut j: usize = 0;
        while j < 8
            invariant
                j <= 8,
                i < 4,
                start == 8 * i,
                forall|k: int| 0 <= k < start ==> #[trigger] res@[k] == old_res[k],
                forall|k: int| start <= k < start + j ==> #[trigger] res@[k] == out@[k - start],
                old_res.len() == 32,
            decreases 8 - j,
        {
            res[start + j] = out[j];
            j += 1;
        }
        proof {
            assert(res@.subrange(start as int, start + 8) =~= out@);
            assert forall|k: int| 0 <= k < i implies #[trigger] res@.subrange(8 * k, 8 * k + 8)
                == old_res.subrange(8 * k, 8 * k + 8) by {
                assert(res@.subrange(8 * k, 8 * k + 8) =~= old_res.subrange(8 * k, 8 * k + 8));
            }
            w = w.push(total as int);
        }
        carry = if total < carry {
            1
        } else {
            0
        };
        proof {
            c = c.push(carry as int);
        }
        i += 1;
    }
    proof {
        lemma_le_words(res@);
        lemma_le_words(base@);
        assert(w[0] == le_value(res@.subrange(0, 8)));
        assert(w[1] == le_value(res@.subrange(8, 16)));
        assert(w[2] == le_value(res@.subrange(16, 24)));
        assert(w[3] == le_value(res@.subrange(24, 32)));
        assert(le_value(res@)
            == le_value(base@) + offset - c[4]
            * 0x10000000000000000000000000000000000000000000000000000000000000000int);
        assert(c[4] == 0 || c[4] == 1);
        lemma_le_bytes(res@);
    }
    res
}

} // verus!
