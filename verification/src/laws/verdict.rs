//! Verdicts: when a key is written and when it is thrown away.
use vstd::prelude::*;

use crate::bytes;
use crate::gate;
use crate::kernel;
use crate::kernel::BytePrefix;
use crate::keys;
use crate::keys::Algo;
use crate::onion;
use crate::prefix::BytePrefixOwned;
use crate::session;
use crate::session::Verdict;

verus! {

/// The purpose of judging a match: its key is written, under its address and with its file, exactly
/// when the first characters of the address are the prefix, however long that is. Otherwise, and only
/// then, it is discarded.
pub proof fn lemma_verdict(prefix: Seq<char>, onion: Seq<char>, contents: Seq<u8>, r: Verdict)
    requires
        session::judged(prefix, onion, contents, r),
    ensures
        r is Write <==> prefix.len() <= onion.len() && forall|i: int|
            0 <= i < prefix.len() ==> #[trigger] onion[i] == prefix[i],
        r is Discard <==> !(prefix.len() <= onion.len() && forall|i: int|
            0 <= i < prefix.len() ==> #[trigger] onion[i] == prefix[i]),
        r matches Verdict::Write { onion: name, file } ==> name@ == onion && file@ == contents,
        r matches Verdict::Discard { message, file } ==> file@ == contents && message@
            == "⚠ DISCARDED unverified match for \""@ + prefix + "\" (re-derived "@ + onion
            + ") — kernel bug?"@,
{
    lemma_starts(prefix, onion);
}

/// Text starts with other text exactly when its first characters are those of the other.
pub proof fn lemma_starts(p: Seq<char>, t: Seq<char>)
    ensures
        p.is_prefix_of(t) <==> p.len() <= t.len() && forall|i: int|
            0 <= i < p.len() ==> #[trigger] t[i] == p[i],
{
    if p.is_prefix_of(t) {
        assert forall|i: int| 0 <= i < p.len() implies #[trigger] t[i] == p[i] by {
            assert(t.subrange(0, p.len() as int)[i] == p[i]);
        }
    }
    if p.len() <= t.len() && forall|i: int| 0 <= i < p.len() ==> #[trigger] t[i] == p[i] {
        assert(p =~= t.subrange(0, p.len() as int));
    }
}

/// What the incremental kernel recorded for an accepted prefix is written, as long as the walk does
/// not pass `2^256`.
pub proof fn lemma_walk_hit_is_written(
    o: BytePrefixOwned,
    b: BytePrefix,
    s: Seq<char>,
    base: Seq<u8>,
    offset: int,
    n: nat,
    i: int,
    contents: Seq<u8>,
    r: Verdict,
)
    requires
        0 < s.len() <= 51,
        forall|j: int|
            0 <= j < s.len() ==> 97 <= (#[trigger] s[j]) as int <= 122 || 50 <= s[j] as int <= 55,
        o.constrains(s),
        b.byte_prefix@ == o.byte_prefix@,
        b.last_byte_idx == o.last_byte_idx,
        b.last_byte_mask == o.last_byte_mask,
        base.len() == 32,
        (bytes::le_value(base) + offset)
            % 0x10000000000000000000000000000000000000000000000000000000000000000int + n
            <= 0x10000000000000000000000000000000000000000000000000000000000000000int,
        0 <= i < kernel::hits(b, kernel::walk_candidates(base, offset, n)).len(),
        session::judged(
            s,
            keys::derived_address(
                Algo::Incremental,
                kernel::hits(b, kernel::walk_candidates(base, offset, n))[i],
            ),
            contents,
            r,
        ),
    ensures
        r matches Verdict::Write { onion: name, file } && file@ == contents && name@
            == keys::derived_address(
            Algo::Incremental,
            kernel::hits(b, kernel::walk_candidates(base, offset, n))[i],
        ),
{
    assert(onion::valid_prefix(s));
    gate::lemma_walk_hits_pass(o, b, s, base, offset, n, i);
    let t = keys::derived_address(
        Algo::Incremental,
        kernel::hits(b, kernel::walk_candidates(base, offset, n))[i],
    );
    lemma_starts(s, t);
    lemma_verdict(s, t, contents, r);
}

/// What the seed kernel recorded for an accepted prefix is written.
pub proof fn lemma_seed_hit_is_written(
    o: BytePrefixOwned,
    b: BytePrefix,
    s: Seq<char>,
    seed: Seq<u8>,
    x: u64,
    stride: u64,
    n: nat,
    i: int,
    contents: Seq<u8>,
    r: Verdict,
)
    requires
        0 < s.len() <= 51,
        forall|j: int|
            0 <= j < s.len() ==> 97 <= (#[trigger] s[j]) as int <= 122 || 50 <= s[j] as int <= 55,
        o.constrains(s),
        b.byte_prefix@ == o.byte_prefix@,
        b.last_byte_idx == o.last_byte_idx,
        b.last_byte_mask == o.last_byte_mask,
        0 <= i < kernel::hits(b, kernel::seed_candidates(seed, x, stride, n)).len(),
        session::judged(
            s,
            keys::derived_address(
                Algo::Seed,
                kernel::hits(b, kernel::seed_candidates(seed, x, stride, n))[i],
            ),
            contents,
            r,
        ),
    ensures
        r matches Verdict::Write { onion: name, file } && file@ == contents && name@
            == keys::derived_address(
            Algo::Seed,
            kernel::hits(b, kernel::seed_candidates(seed, x, stride, n))[i],
        ),
{
    assert(onion::valid_prefix(s));
    gate::lemma_seed_hits_pass(o, b, s, seed, x, stride, n, i);
    let t = keys::derived_address(
        Algo::Seed,
        kernel::hits(b, kernel::seed_candidates(seed, x, stride, n))[i],
    );
    lemma_starts(s, t);
    lemma_verdict(s, t, contents, r);
}

} // verus!
