//! Characters and numbers as text.
use vstd::prelude::*;

use crate::bytes;
use crate::text;

verus! {

/// Lower case adds 32 to the ASCII letters from `A` to `Z` and keeps every other character.
pub proof fn lemma_lower(c: char)
    ensures
        text::lower(c) as int == c as int + if 65 <= c as int <= 90 {
            32int
        } else {
            0
        },
{
}

/// Lower case goes character by character.
pub proof fn lemma_lowered(s: Seq<char>, i: int)
    requires
        0 <= i < s.len(),
    ensures
        text::lowered(s).len() == s.len(),
        text::lowered(s)[i] as int == s[i] as int + if 65 <= s[i] as int <= 90 {
            32int
        } else {
            0
        },
{
}

/// The white space of Unicode, by number.
pub proof fn lemma_white(c: char)
    ensures
        text::white(c) <==> {
            let n = c as int;
            9 <= n <= 13 || n == 32 || n == 133 || n == 160 || n == 5760 || 8192 <= n <= 8202 || n
                == 8232 || n == 8233 || n == 8239 || n == 8287 || n == 12288
        },
{
}

/// Trimming removes the white space at both ends and nothing else: what lies between two positions,
/// with white space alone outside and none at the ends inside, is what is left.
pub proof fn lemma_trimmed(s: Seq<char>, a: int, b: int)
    requires
        0 <= a <= b <= s.len(),
        forall|i: int| 0 <= i < a ==> text::white(#[trigger] s[i]),
        forall|i: int| b <= i < s.len() ==> text::white(#[trigger] s[i]),
        a < b ==> !text::white(s[a]) && !text::white(s[b - 1]),
    ensures
        text::trimmed(s) == s.subrange(a, b),
{
    if a < b {
        lemma_trimmed_start(s, a);
        lemma_trimmed_end(s.subrange(a, s.len() as int), b - a);
        assert(s.subrange(a, s.len() as int).subrange(0, b - a) =~= s.subrange(a, b));
    } else {
        assert forall|i: int| 0 <= i < s.len() implies text::white(#[trigger] s[i]) by {}
        lemma_trimmed_start(s, s.len() as int);
        assert(s.subrange(s.len() as int, s.len() as int) =~= Seq::empty());
        assert(s.subrange(a, b) =~= Seq::empty());
    }
}

proof fn lemma_trimmed_start(s: Seq<char>, a: int)
    requires
        0 <= a <= s.len(),
        forall|i: int| 0 <= i < a ==> text::white(#[trigger] s[i]),
        a < s.len() ==> !text::white(s[a]),
    ensures
        text::trimmed_start(s) == s.subrange(a, s.len() as int),
    decreases a,
{
    if a > 0 {
        let t = s.drop_first();
        assert forall|i: int| 0 <= i < a - 1 implies text::white(#[trigger] t[i]) by {
            assert(text::white(s[i + 1]));
        }
        lemma_trimmed_start(t, a - 1);
        assert(t.subrange(a - 1, t.len() as int) =~= s.subrange(a, s.len() as int));
    } else {
        assert(s.subrange(0, s.len() as int) =~= s);
    }
}

proof fn lemma_trimmed_end(s: Seq<char>, b: int)
    requires
        0 <= b <= s.len(),
        forall|i: int| b <= i < s.len() ==> text::white(#[trigger] s[i]),
        b > 0 ==> !text::white(s[b - 1]),
    ensures
        text::trimmed_end(s) == s.subrange(0, b),
    decreases s.len(),
{
    if b < s.len() {
        let t = s.drop_last();
        assert forall|i: int| b <= i < t.len() implies text::white(#[trigger] t[i]) by {
            assert(text::white(s[i]));
        }
        assert(text::white(s.last()));
        lemma_trimmed_end(t, b);
        assert(t.subrange(0, b) =~= s.subrange(0, b));
    } else {
        assert(s.subrange(0, b) =~= s);
    }
}

/// Decimal text reads as its number: digits alone, the first of them no zero but for zero itself,
/// and their value is the number.
pub proof fn lemma_decimal(n: nat)
    ensures
        ({
            let t = text::decimal(n);
            &&& t.len() > 0
            &&& forall|i: int| 0 <= i < t.len() ==> 48 <= (#[trigger] t[i]) as int <= 57
            &&& n > 0 ==> t[0] as int > 48
            &&& n == 0 ==> t.len() == 1
            &&& t.fold_left(0int, |v: int, c: char| 10 * v + (c as int - 48)) == n
        }),
    decreases n,
{
    let t = text::decimal(n);
    let f = |v: int, c: char| 10 * v + (c as int - 48);
    if n < 10 {
        assert(t.drop_last() =~= Seq::empty());
        assert(t.drop_last().fold_left(0int, f) == 0);
        assert(t.last() as int == 48 + n);
    } else {
        lemma_decimal(n / 10);
        let u = text::decimal(n / 10);
        assert(t.drop_last() =~= u);
        assert(t.last() as int == 48 + n % 10);
        assert(t[0] == u[0]);
        assert forall|i: int| 0 <= i < t.len() implies 48 <= (#[trigger] t[i]) as int <= 57 by {
            if i < u.len() {
                assert(t[i] == u[i]);
            }
        }
    }
}

/// Padding behind: the text first, then spaces up to the width, and no more than that.
pub proof fn lemma_left_aligned(s: Seq<char>, width: int)
    ensures
        ({
            let t = text::left_aligned(s, width);
            &&& t.len() == if width > s.len() {
                width
            } else {
                s.len() as int
            }
            &&& t.take(s.len() as int) == s
            &&& forall|i: int| s.len() <= i < t.len() ==> #[trigger] t[i] as int == 32
        }),
{
    assert(text::left_aligned(s, width).take(s.len() as int) =~= s);
}

/// Padding in front: spaces first, then the text, up to the width and no more than that.
pub proof fn lemma_right_aligned(s: Seq<char>, width: int)
    ensures
        ({
            let t = text::right_aligned(s, width);
            let n = t.len() - s.len();
            &&& t.len() == if width > s.len() {
                width
            } else {
                s.len() as int
            }
            &&& t.skip(n) == s
            &&& forall|i: int| 0 <= i < n ==> #[trigger] t[i] as int == 32
        }),
{
    let t = text::right_aligned(s, width);
    assert(t.skip(t.len() - s.len()) =~= s);
}

/// Little-endian bytes: the first byte counts once, and the number in the rest 256 times.
pub proof fn lemma_little_endian(s: Seq<u8>)
    ensures
        s.len() == 0 ==> bytes::le_value(s) == 0,
        s.len() > 0 ==> bytes::le_value(s) == s[0] + 256 * bytes::le_value(s.skip(1)),
{
    if s.len() > 0 {
        bytes::lemma_le_tail(s, 1);
        assert(s.subrange(1, s.len() as int) =~= s.skip(1));
    }
}

/// The bytes of a number below `2^256` are 32 and spell it.
pub proof fn lemma_number_bytes(n: int)
    requires
        0 <= n < 0x10000000000000000000000000000000000000000000000000000000000000000int,
    ensures
        bytes::le_bytes(n, 32).len() == 32,
        bytes::le_value(bytes::le_bytes(n, 32)) == n,
{
    bytes::lemma_two_256();
    bytes::lemma_le_bytes_len(n, 32);
    bytes::lemma_le_value_of_bytes(n, 32);
}

} // verus!
