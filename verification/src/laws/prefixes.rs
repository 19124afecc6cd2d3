//! Prefixes: which are accepted, what becomes of them and what is said.
use vstd::arithmetic::power2::*;
use vstd::prelude::*;

use crate::alphabet;
use crate::kernel::BytePrefix;
use crate::laws;
use crate::onion;
use crate::prefix;
use crate::prefix::BytePrefixOwned;
use crate::session;
use crate::text;

verus! {

/// The accepted prefixes are those of one to 51 characters, all of them from `a` to `z` or from `2` to
/// `7`.
pub proof fn lemma_accepted(p: Seq<char>)
    ensures
        onion::valid_prefix(p) <==> 1 <= p.len() <= 51 && forall|i: int|
            0 <= i < p.len() ==> 97 <= (#[trigger] p[i]) as int <= 122 || 50 <= p[i] as int <= 55,
{
    if onion::valid_prefix(p) {
        assert forall|i: int| 0 <= i < p.len() implies 97 <= (#[trigger] p[i]) as int <= 122 || 50
            <= p[i] as int <= 55 by {
            assert(onion::onion_char(p[i]));
        }
    }
}

/// A prefix is searched for without the white space around it and in lower case: what lies between
/// two positions with white space alone outside and none at the ends inside, character by character.
pub proof fn lemma_normal(s: Seq<char>, a: int, b: int)
    requires
        0 <= a <= b <= s.len(),
        forall|i: int| 0 <= i < a ==> text::white(#[trigger] s[i]),
        forall|i: int| b <= i < s.len() ==> text::white(#[trigger] s[i]),
        a < b ==> !text::white(s[a]) && !text::white(s[b - 1]),
    ensures
        onion::normal(s).len() == b - a,
        forall|i: int|
            0 <= i < b - a ==> (#[trigger] onion::normal(s)[i]) as int == s[a + i] as int + if 65
                <= s[a + i] as int <= 90 {
                32int
            } else {
                0
            },
{
    laws::writing::lemma_trimmed(s, a, b);
    let t = s.subrange(a, b);
    assert forall|i: int| 0 <= i < b - a implies (#[trigger] onion::normal(s)[i]) as int == s[a
        + i] as int + if 65 <= s[a + i] as int <= 90 {
        32int
    } else {
        0
    } by {
        laws::writing::lemma_lowered(t, i);
    }
}

/// Why a prefix is refused: because it is empty, because of its first character that addresses do not
/// have, or because it is too long.
pub proof fn lemma_refusal(p: Seq<char>, j: int)
    ensures
        p.len() == 0 ==> onion::refusal(p) == "prefix is empty"@,
        0 <= j < p.len() && !(97 <= p[j] as int <= 122 || 50 <= p[j] as int <= 55) && (forall|i: int|
            0 <= i < j ==> 97 <= (#[trigger] p[i]) as int <= 122 || 50 <= p[i] as int <= 55)
            ==> onion::refusal(p) == "'"@ + seq![p[j]]
            + "' is not a base32 character — onion addresses use a-z and 2-7 only (note: 0, 1, 8 and 9 are never valid)"@,
        p.len() > 0 && (forall|i: int|
            0 <= i < p.len() ==> 97 <= (#[trigger] p[i]) as int <= 122 || 50 <= p[i] as int <= 55)
            ==> onion::refusal(p) == text::decimal(p.len()) + " characters is longer than the "@
            + text::decimal(51) + " the public key can constrain, so it could never match"@,
{
    onion::lemma_first_bad(p);
    if 0 <= j < p.len() && !(97 <= p[j] as int <= 122 || 50 <= p[j] as int <= 55) && (forall|
        i: int,
    |
        0 <= i < j ==> 97 <= (#[trigger] p[i]) as int <= 122 || 50 <= p[i] as int <= 55) {
        lemma_first_bad_at(p, j);
    }
    if forall|i: int|
        0 <= i < p.len() ==> 97 <= (#[trigger] p[i]) as int <= 122 || 50 <= p[i] as int <= 55 {
        assert forall|i: int| 0 <= i < p.len() implies onion::onion_char(#[trigger] p[i]) by {}
    }
}

proof fn lemma_first_bad_at(p: Seq<char>, j: int)
    requires
        0 <= j < p.len(),
        !(97 <= p[j] as int <= 122 || 50 <= p[j] as int <= 55),
        forall|i: int|
            0 <= i < j ==> 97 <= (#[trigger] p[i]) as int <= 122 || 50 <= p[i] as int <= 55,
    ensures
        onion::first_bad(p) == Some(p[j]),
    decreases j,
{
    if j > 0 {
        let rest = p.drop_first();
        assert(97 <= p[0] as int <= 122 || 50 <= p[0] as int <= 55);
        assert forall|i: int| 0 <= i < j - 1 implies 97 <= (#[trigger] rest[i]) as int <= 122 || 50
            <= rest[i] as int <= 55 by {
            assert(97 <= p[i + 1] as int <= 122 || 50 <= p[i + 1] as int <= 55);
        }
        lemma_first_bad_at(rest, j - 1);
    }
}

/// What is said of an accepted prefix: a warning from 13 characters on, with the work that it is more
/// than 12 of them, and a note if it was changed.
pub proof fn lemma_remarks(raw: Seq<char>)
    ensures
        ({
            let p = onion::normal(raw);
            let n = p.len();
            let warning = "warning: "@ + text::decimal(n) + " characters is "@ + text::decimal(
                pow2(
                    if 5 * (n - 12) < 63 {
                        (5 * (n - 12)) as nat
                    } else {
                        63
                    },
                ),
            ) + " times the work of "@ + text::decimal(12) + " — this run may never finish"@;
            let note = "note: searching for \""@ + p + "\" (prefixes are lowercase)"@;
            session::remarks(raw) == if n >= 13 && p != raw {
                seq![warning, note]
            } else if n >= 13 {
                seq![warning]
            } else if p != raw {
                seq![note]
            } else {
                Seq::empty()
            }
        }),
{
    let p = onion::normal(raw);
    let n = p.len();
    let warning = session::warning_text(n);
    let note = session::note_text(p);
    assert(session::remarks(raw) =~= if n >= 13 && p != raw {
        seq![warning, note]
    } else if n >= 13 {
        seq![warning]
    } else if p != raw {
        seq![note]
    } else {
        Seq::empty()
    });
}

/// What is said of prefixes is what is said of each of them, in order.
pub proof fn lemma_all_remarks(raws: Seq<String>, n: int)
    requires
        0 <= n <= raws.len(),
    ensures
        session::remarks_of(raws, n) == Seq::new(
            n as nat,
            |i: int| session::remarks(raws[i]@),
        ).flatten(),
    decreases n,
{
    let all = Seq::new(n as nat, |i: int| session::remarks(raws[i]@));
    if n > 0 {
        lemma_all_remarks(raws, n - 1);
        let rest = Seq::new((n - 1) as nat, |i: int| session::remarks(raws[i]@));
        assert(all =~= rest.push(session::remarks(raws[n - 1]@)));
        laws::screen::lemma_flatten_push(rest, session::remarks(raws[n - 1]@));
    }
}

/// The first prefixes are accepted exactly when each of them is, in the form in which it is searched
/// for.
pub proof fn lemma_all_accepted(raws: Seq<String>, n: int)
    ensures
        session::accepted(raws, n) <==> forall|i: int|
            0 <= i < n ==> onion::valid_prefix(onion::normal(#[trigger] raws[i]@)),
        session::accepted(raws, n + 1) <==> session::accepted(raws, n) && (n >= 0
            ==> onion::valid_prefix(onion::normal(raws[n]@))),
{
    if n >= 0 && session::accepted(raws, n + 1) {
        assert(onion::valid_prefix(onion::normal(raws[n]@)));
    }
}

/// The error of a refused prefix names it and says why.
pub proof fn lemma_error(raw: Seq<char>, why: Seq<char>)
    ensures
        session::error_text(raw, why) == "error: prefix \""@ + raw + "\": "@ + why,
{
}

/// The text that has bits: letters of either case, digits from 2 to 7 and the padding character.
pub proof fn lemma_text(s: Seq<char>)
    ensures
        alphabet::is_text(s) <==> forall|i: int|
            0 <= i < s.len() ==> 65 <= (#[trigger] s[i]) as int <= 90 || 97 <= s[i] as int <= 122
                || 50 <= s[i] as int <= 55 || s[i] as int == 61,
{
    if alphabet::is_text(s) {
        assert forall|i: int| 0 <= i < s.len() implies 65 <= (#[trigger] s[i]) as int <= 90 || 97
            <= s[i] as int <= 122 || 50 <= s[i] as int <= 55 || s[i] as int == 61 by {
            assert(alphabet::symbol(s[i]) is Some);
        }
    } else {
        let i = choose|i: int| 0 <= i < s.len() && alphabet::symbol(#[trigger] s[i]) is None;
        assert(!(65 <= s[i] as int <= 90 || 97 <= s[i] as int <= 122 || 50 <= s[i] as int <= 55
            || s[i] as int == 61));
    }
}

/// How many bytes a prefix constrains in full, and which bits of the next one.
pub proof fn lemma_constrained(o: BytePrefixOwned, s: Seq<char>)
    requires
        o.constrains(s),
    ensures
        o.byte_prefix@.len() == 5 * (s.len() + 2) / 8,
        o.last_byte_idx == 5 * s.len() / 8,
        o.last_byte_mask == seq![0u8, 128, 192, 224, 240, 248, 252, 254][(5 * s.len() % 8) as int],
{
    if 5 * s.len() % 8 > 0 {
        alphabet::lemma_top_mask((5 * s.len() % 8) as int);
    }
}

/// The purpose of the bits of a prefix: a public key starts with them exactly when the first
/// characters of its address are the prefix, for every accepted prefix, key and digest.
pub proof fn lemma_bits_are_characters(
    o: BytePrefixOwned,
    s: Seq<char>,
    key: Seq<u8>,
    digest: Seq<u8>,
)
    requires
        1 <= s.len() <= 51,
        forall|i: int|
            0 <= i < s.len() ==> 97 <= (#[trigger] s[i]) as int <= 122 || 50 <= s[i] as int <= 55,
        o.constrains(s),
        key.len() == 32,
    ensures
        ((forall|i: int|
            0 <= i < o.last_byte_idx ==> #[trigger] key[i] == o.byte_prefix@[i]) && (
        o.last_byte_mask != 0 ==> key[o.last_byte_idx as int] & o.last_byte_mask
            == o.byte_prefix@[o.last_byte_idx as int] & o.last_byte_mask)) <==> forall|i: int|
            0 <= i < s.len() ==> #[trigger] onion::onion_text(key, digest)[i] == s[i],
{
    lemma_accepted(s);
    let b = BytePrefix {
        byte_prefix: o.byte_prefix,
        last_byte_idx: o.last_byte_idx,
        last_byte_mask: o.last_byte_mask,
        out: o.out,
        found: o.found,
    };
    let t = onion::onion_text(key, digest);
    prefix::lemma_fits_is_prefix(o, b, s, key, digest);
    onion::lemma_address_shape(key, digest);
    laws::verdict::lemma_starts(s, t);
}

/// The bits of the bytes of a prefix are those of its characters, five to each, with zeros behind:
/// letters of either case count from 0 to 25, digits from 26 to 31, and the padding character as zero.
pub proof fn lemma_prefix_bit(o: BytePrefixOwned, s: Seq<char>, i: int)
    requires
        o.constrains(s),
        0 <= i < 8 * o.byte_prefix@.len(),
    ensures
        ({
            let v = |c: char|
                if 65 <= c as int <= 90 {
                    c as int - 65
                } else if 97 <= c as int <= 122 {
                    c as int - 97
                } else if c as int == 61 {
                    0
                } else {
                    c as int - 24
                };
            alphabet::is_text(s) || i / 5 >= s.len() ==> (o.byte_prefix@[i / 8] as int / (pow2((7 - i % 8) as nat) as int)) % 2 == (if i
                / 5 < s.len() {
                v(s[i / 5])
            } else {
                0
            } / (pow2((4 - i % 5) as nat) as int)) % 2
        }),
{
    let t = prefix::padded(s);
    assert(alphabet::bit(o.byte_prefix@, i) == alphabet::text_bit(t, i));
    if i / 5 < s.len() {
        assert(t[i / 5] == s[i / 5]);
        if alphabet::is_text(s) {
            assert(alphabet::symbol(s[i / 5]) is Some);
        }
    } else {
        assert(t[i / 5] == 'a');
    }
}

} // verus!
