//! Harvests: what is kept and what is counted of the matches of a launch.
use vstd::prelude::*;

use crate::prefix::BytePrefixOwned;
use crate::session;

verus! {

/// How many matches were claimed is the sum of the counters.
pub proof fn lemma_claimed(ps: Seq<BytePrefixOwned>)
    ensures
        session::claimed_of(ps, ps.len() as int) == ps.fold_left(
            0int,
            |sum: int, p: BytePrefixOwned| sum + p.found,
        ),
{
    lemma_claimed_first(ps, ps.len() as int);
    assert(ps.take(ps.len() as int) =~= ps);
}

proof fn lemma_claimed_first(ps: Seq<BytePrefixOwned>, n: int)
    requires
        0 <= n <= ps.len(),
    ensures
        session::claimed_of(ps, n) == ps.take(n).fold_left(
            0int,
            |sum: int, p: BytePrefixOwned| sum + p.found,
        ),
    decreases n,
{
    if n > 0 {
        lemma_claimed_first(ps, n - 1);
        assert(ps.take(n).drop_last() =~= ps.take(n - 1));
    }
}

/// The matches of a launch are those of the first prefix, then those of the second, and so on; of
/// each prefix they are the slots up to its counter, or all 64 of them if more were claimed.
pub proof fn lemma_collected(ps: Seq<BytePrefixOwned>)
    ensures
        session::matches_of(ps, ps.len() as int) == Seq::new(
            ps.len(),
            |q: int|
                Seq::new(
                    if ps[q].found < 64 {
                        ps[q].found as nat
                    } else {
                        64
                    },
                    |k: int| (q, ps[q].out@.subrange(32 * k, 32 * k + 32)),
                ),
        ).flatten(),
{
    let n: int = ps.len() as int;
    let all = Seq::new(
        ps.len(),
        |q: int|
            Seq::new(
                if ps[q].found < 64 {
                    ps[q].found as nat
                } else {
                    64
                },
                |k: int| (q, ps[q].out@.subrange(32 * k, 32 * k + 32)),
            ),
    );
    lemma_collected_first(ps, all, n);
    assert(all.take(n) =~= all);
    all.lemma_flatten_and_flatten_alt_are_equivalent();
}

proof fn lemma_collected_first(
    ps: Seq<BytePrefixOwned>,
    all: Seq<Seq<(int, Seq<u8>)>>,
    n: int,
)
    requires
        0 <= n <= ps.len(),
        all == Seq::new(
            ps.len(),
            |q: int|
                Seq::new(
                    if ps[q].found < 64 {
                        ps[q].found as nat
                    } else {
                        64
                    },
                    |k: int| (q, ps[q].out@.subrange(32 * k, 32 * k + 32)),
                ),
        ),
    ensures
        session::matches_of(ps, n) == all.take(n).flatten_alt(),
    decreases n,
{
    if n > 0 {
        lemma_collected_first(ps, all, n - 1);
        assert(all.take(n).drop_last() =~= all.take(n - 1));
        let last = Seq::new(
            session::stored(ps[n - 1]),
            |k: int| (n - 1, ps[n - 1].out@.subrange(32 * k, 32 * k + 32)),
        );
        assert(all.take(n).last() =~= last);
    }
}

/// A match of a launch is a slot of some prefix that was claimed.
proof fn lemma_match_is_slot(ps: Seq<BytePrefixOwned>, n: int, i: int) -> (m: (int, int))
    requires
        0 <= n <= ps.len(),
        0 <= i < session::matches_of(ps, n).len(),
    ensures
        0 <= m.0 < n,
        0 <= m.1 < 64,
        m.1 < ps[m.0].found,
        session::matches_of(ps, n)[i] == (
            m.0,
            ps[m.0].out@.subrange(32 * m.1, 32 * m.1 + 32),
        ),
    decreases n,
{
    let before = session::matches_of(ps, n - 1);
    if i < before.len() {
        lemma_match_is_slot(ps, n - 1, i)
    } else {
        (n - 1, i - before.len())
    }
}

/// There are matches exactly when some counter is not zero.
pub proof fn lemma_some_match(ps: Seq<BytePrefixOwned>, n: int)
    requires
        0 <= n <= ps.len(),
    ensures
        session::matches_of(ps, n).len() > 0 <==> exists|q: int|
            0 <= q < n && (#[trigger] ps[q]).found > 0,
    decreases n,
{
    if n > 0 {
        lemma_some_match(ps, n - 1);
        let before = session::matches_of(ps, n - 1);
        if ps[n - 1].found > 0 {
            assert(session::matches_of(ps, n).len() > 0);
        } else if exists|q: int| 0 <= q < n && (#[trigger] ps[q]).found > 0 {
            let q = choose|q: int| 0 <= q < n && (#[trigger] ps[q]).found > 0;
            assert(0 <= q < n - 1 && ps[q].found > 0);
        }
    }
}

/// The purpose of a harvest: a match is kept exactly when some prefix claimed one. It is a claimed
/// slot of the prefix that it is kept for, and with the others that are counted as dropped it makes
/// up all that was claimed.
pub proof fn lemma_harvest(ps: Seq<BytePrefixOwned>, kept: Option<(int, Seq<u8>)>, dropped: int)
    requires
        ({
            let all = session::matches_of(ps, ps.len() as int);
            &&& kept is None <==> all.len() == 0
            &&& kept is None ==> dropped == 0
            &&& kept matches Some(m) ==> all.contains(m) && dropped == session::claimed_of(
                ps,
                ps.len() as int,
            ) - 1
        }),
    ensures
        kept is Some <==> exists|q: int| 0 <= q < ps.len() && (#[trigger] ps[q]).found > 0,
        kept matches Some(m) ==> 0 <= m.0 < ps.len() && exists|k: int|
            0 <= k < 64 && k < ps[m.0].found && m.1 == #[trigger] ps[m.0].out@.subrange(
                32 * k,
                32 * k + 32,
            ),
        dropped + (if kept is Some {
            1int
        } else {
            0
        }) == ps.fold_left(0int, |sum: int, p: BytePrefixOwned| sum + p.found),
{
    let n: int = ps.len() as int;
    let all = session::matches_of(ps, n);
    lemma_some_match(ps, n);
    lemma_claimed(ps);
    session::lemma_stored_claimed(ps, n);
    if let Some(m) = kept {
        let i = choose|i: int| 0 <= i < all.len() && all[i] == m;
        let at = lemma_match_is_slot(ps, n, i);
        assert(m.1 == ps[m.0].out@.subrange(32 * at.1, 32 * at.1 + 32));
    }
}

/// A prefix whose matches were taken has an empty counter, and nothing else of it has changed.
pub proof fn lemma_drained(a: BytePrefixOwned, b: BytePrefixOwned)
    ensures
        session::drained(a, b) <==> b.found == 0 && b.byte_prefix@ == a.byte_prefix@
            && b.last_byte_idx == a.last_byte_idx && b.last_byte_mask == a.last_byte_mask && b.out@
            == a.out@,
{
}

/// A collected match is the index of its prefix and its 32 bytes.
pub proof fn lemma_plain(m: (usize, [u8; 32]))
    ensures
        session::plain(m).0 == m.0,
        session::plain(m).1 == m.1@,
{
}

} // verus!
