//! Launches: what the memory of a prefix holds after a kernel has run.
use vstd::prelude::*;

use crate::bytes;
use crate::gate;
use crate::kernel;
use crate::kernel::{BytePrefix, Candidate};
use crate::keys;
use crate::keys::Algo;
use crate::onion;
use crate::prefix::BytePrefixOwned;

verus! {

/// The secrets that are recorded are those of the candidates that a test accepts, in order.
proof fn lemma_hits_filter(p: BytePrefix, tried: Seq<Candidate>, test: spec_fn(Candidate) -> bool)
    requires
        forall|c: Candidate| #[trigger] test(c) == p.fits(c.data),
    ensures
        kernel::hits(p, tried) == tried.filter(test).map_values(|c: Candidate| c.key),
    decreases tried.len(),
{
    reveal(Seq::filter);
    let key = |c: Candidate| c.key;
    if tried.len() > 0 {
        lemma_hits_filter(p, tried.drop_last(), test);
        let rest = tried.drop_last().filter(test);
        assert(rest.push(tried.last()).map_values(key) =~= rest.map_values(key).push(
            tried.last().key,
        ));
    } else {
        assert(tried.filter(test).map_values(key) =~= Seq::empty());
    }
}

/// What a slot holds after keys were recorded from a claim on.
proof fn lemma_slot(out: Seq<u8>, found: int, all: Seq<Seq<u8>>, j: int)
    requires
        out.len() == 2048,
        0 <= found,
        found + all.len() <= 0x100000000,
        forall|i: int| 0 <= i < all.len() ==> (#[trigger] all[i]).len() == 32,
        0 <= j < 64,
    ensures
        kernel::out_after(out, found, all).len() == 2048,
        kernel::out_after(out, found, all).subrange(32 * j, 32 * j + 32) == (if found <= j < found
            + all.len() {
            all[j - found]
        } else {
            out.subrange(32 * j, 32 * j + 32)
        }),
    decreases all.len(),
{
    if all.len() > 0 {
        let rest = all.drop_last();
        let slot: int = found + all.len() - 1;
        let prev = kernel::out_after(out, found, rest);
        let now = kernel::out_after(out, found, all);
        assert forall|i: int| 0 <= i < rest.len() implies (#[trigger] rest[i]).len() == 32 by {
            assert(rest[i] == all[i]);
        }
        lemma_slot(out, found, rest, j);
        assert(slot % 0x100000000 == slot);
        assert(all.last().len() == 32);
        if slot < 64 {
            if slot == j {
                assert(now.subrange(32 * j, 32 * j + 32) =~= all.last());
            } else {
                assert(now.subrange(32 * j, 32 * j + 32) =~= prev.subrange(32 * j, 32 * j + 32));
            }
        }
    }
}

/// After a kernel has tried its candidates, every prefix, wherever it stands and however long it is,
/// has counted exactly the candidates whose data starts with its bits. The slots from the first free
/// one on hold their secrets in order, as far as there are slots, and the others hold what they
/// held.
pub proof fn lemma_launch(
    before: Seq<BytePrefix>,
    tried: Seq<Candidate>,
    after: Seq<BytePrefix>,
    q: int,
)
    requires
        kernel::tried_all(before, tried, after),
        0 <= q < before.len(),
        before[q].out@.len() == 2048,
        forall|i: int| 0 <= i < tried.len() ==> (#[trigger] tried[i]).key.len() == 32,
    ensures
        ({
            let p = before[q];
            let won = tried.filter(
                |c: Candidate|
                    (forall|i: int|
                        0 <= i < p.last_byte_idx ==> #[trigger] c.data[i] == p.byte_prefix@[i]) && (
                    p.last_byte_mask != 0 ==> c.data[p.last_byte_idx as int] & p.last_byte_mask
                        == p.byte_prefix@[p.last_byte_idx as int] & p.last_byte_mask),
            );
            &&& after.len() == before.len()
            &&& after[q].byte_prefix@ == p.byte_prefix@
            &&& after[q].last_byte_idx == p.last_byte_idx
            &&& after[q].last_byte_mask == p.last_byte_mask
            &&& after[q].found == (p.found + won.len()) % 0x100000000
            &&& p.found + won.len() <= 0x100000000 ==> forall|j: int|
                #![trigger after[q].out@.subrange(32 * j, 32 * j + 32)]
                0 <= j < 64 ==> after[q].out@.subrange(32 * j, 32 * j + 32) == if p.found <= j
                    < p.found + won.len() {
                    won[j - p.found].key
                } else {
                    p.out@.subrange(32 * j, 32 * j + 32)
                }
        }),
{
    let p = before[q];
    let test = |c: Candidate|
                    (forall|i: int|
                        0 <= i < p.last_byte_idx ==> #[trigger] c.data[i] == p.byte_prefix@[i]) && (
                    p.last_byte_mask != 0 ==> c.data[p.last_byte_idx as int] & p.last_byte_mask
                        == p.byte_prefix@[p.last_byte_idx as int] & p.last_byte_mask);
    let won = tried.filter(test);
    let all = kernel::hits(p, tried);
    assert forall|c: Candidate| #[trigger] test(c) == p.fits(c.data) by {}
    lemma_hits_filter(p, tried, test);
    assert(after[q].wf());
    assert forall|i: int| 0 <= i < all.len() implies (#[trigger] all[i]).len() == 32 by {
        let k = gate::lemma_hit_is_candidate(p, tried, i);
    }
    if p.found + won.len() <= 0x100000000 {
        assert forall|j: int|
            #![trigger after[q].out@.subrange(32 * j, 32 * j + 32)]
            0 <= j < 64 implies after[q].out@.subrange(32 * j, 32 * j + 32) == if p.found <= j
            < p.found + won.len() {
            won[j - p.found].key
        } else {
            p.out@.subrange(32 * j, 32 * j + 32)
        } by {
            lemma_slot(p.out@, p.found as int, all, j);
        }
    }
}

/// The same of all prefixes of a launch.
pub proof fn lemma_launches(before: Seq<BytePrefix>, tried: Seq<Candidate>, after: Seq<BytePrefix>)
    requires
        kernel::tried_all(before, tried, after),
        forall|q: int| 0 <= q < before.len() ==> (#[trigger] before[q]).out@.len() == 2048,
        forall|i: int| 0 <= i < tried.len() ==> (#[trigger] tried[i]).key.len() == 32,
    ensures
        after.len() == before.len(),
        forall|q: int|
            0 <= q < before.len() ==> {
                let p = before[q];
                let now = #[trigger] after[q];
                let won = tried.filter(
                    |c: Candidate|
                        (forall|i: int|
                            0 <= i < p.last_byte_idx ==> #[trigger] c.data[i] == p.byte_prefix@[i])
                            && (p.last_byte_mask != 0 ==> c.data[p.last_byte_idx as int]
                            & p.last_byte_mask == p.byte_prefix@[p.last_byte_idx as int]
                            & p.last_byte_mask),
                );
                &&& now.found == (p.found + won.len()) % 0x100000000
                &&& p.found + won.len() <= 0x100000000 ==> forall|j: int|
                    #![trigger now.out@.subrange(32 * j, 32 * j + 32)]
                    0 <= j < 64 ==> now.out@.subrange(32 * j, 32 * j + 32) == if p.found <= j
                        < p.found + won.len() {
                        won[j - p.found].key
                    } else {
                        p.out@.subrange(32 * j, 32 * j + 32)
                    }
            },
{
    assert forall|q: int| 0 <= q < before.len() implies {
        let p = before[q];
        let now = #[trigger] after[q];
        let won = tried.filter(
            |c: Candidate|
                (forall|i: int|
                            0 <= i < p.last_byte_idx ==> #[trigger] c.data[i] == p.byte_prefix@[i])
                            && (p.last_byte_mask != 0 ==> c.data[p.last_byte_idx as int]
                            & p.last_byte_mask == p.byte_prefix@[p.last_byte_idx as int]
                            & p.last_byte_mask),
        );
        &&& now.found == (p.found + won.len()) % 0x100000000
        &&& p.found + won.len() <= 0x100000000 ==> forall|j: int|
            #![trigger now.out@.subrange(32 * j, 32 * j + 32)]
            0 <= j < 64 ==> now.out@.subrange(32 * j, 32 * j + 32) == if p.found <= j < p.found
                + won.len() {
                won[j - p.found].key
            } else {
                p.out@.subrange(32 * j, 32 * j + 32)
            }
    } by {
        assert(before[q].out@.len() == 2048);
        lemma_launch(before, tried, after, q);
    }
}

/// Picking candidates and then their keys is picking keys.
proof fn lemma_filter_keys(
    tried: Seq<Candidate>,
    test: spec_fn(Candidate) -> bool,
    wanted: spec_fn(Seq<u8>) -> bool,
)
    requires
        forall|i: int|
            0 <= i < tried.len() ==> test(#[trigger] tried[i]) == wanted(tried[i].key),
    ensures
        tried.filter(test).map_values(|c: Candidate| c.key) == tried.map_values(
            |c: Candidate| c.key,
        ).filter(wanted),
    decreases tried.len(),
{
    reveal(Seq::filter);
    let key = |c: Candidate| c.key;
    let all = tried.map_values(key);
    if tried.len() > 0 {
        let rest = tried.drop_last();
        assert forall|i: int| 0 <= i < rest.len() implies test(#[trigger] rest[i]) == wanted(
            rest[i].key,
        ) by {
            assert(rest[i] == tried[i]);
        }
        lemma_filter_keys(rest, test, wanted);
        assert(all.drop_last() =~= rest.map_values(key));
        assert(test(tried[tried.len() - 1]) == wanted(all.last()));
        let won = rest.filter(test);
        assert(won.push(tried.last()).map_values(key) =~= won.map_values(key).push(all.last()));
    } else {
        assert(tried.filter(test).map_values(key) =~= all.filter(wanted));
    }
}

/// What a launch hands back for a prefix, from the candidates and a test of their secrets that says
/// which of them fit.
proof fn lemma_wanted(
    before: Seq<BytePrefix>,
    tried: Seq<Candidate>,
    after: Seq<BytePrefix>,
    q: int,
    wanted: spec_fn(Seq<u8>) -> bool,
)
    requires
        kernel::tried_all(before, tried, after),
        0 <= q < before.len(),
        before[q].out@.len() == 2048,
        before[q].found == 0,
        forall|i: int| 0 <= i < tried.len() ==> (#[trigger] tried[i]).key.len() == 32,
        forall|i: int|
            0 <= i < tried.len() ==> before[q].fits((#[trigger] tried[i]).data) == wanted(
                tried[i].key,
            ),
    ensures
        ({
            let won = tried.map_values(|c: Candidate| c.key).filter(wanted);
            &&& after[q].found == won.len() % 0x100000000
            &&& won.len() < 0x100000000 ==> forall|k: int|
                0 <= k < won.len() && k < 64 ==> after[q].out@.subrange(32 * k, 32 * k + 32)
                    == #[trigger] won[k]
        }),
{
    let p = before[q];
    let test = |c: Candidate| p.fits(c.data);
    let won = tried.map_values(|c: Candidate| c.key).filter(wanted);
    let all = kernel::hits(p, tried);
    lemma_hits_filter(p, tried, test);
    lemma_filter_keys(tried, test, wanted);
    assert(all == won);
    assert(after[q].wf());
    assert forall|i: int| 0 <= i < all.len() implies (#[trigger] all[i]).len() == 32 by {
        let k = gate::lemma_hit_is_candidate(p, tried, i);
    }
    if won.len() < 0x100000000 {
        assert forall|k: int| 0 <= k < won.len() && k < 64 implies after[q].out@.subrange(
            32 * k,
            32 * k + 32,
        ) == #[trigger] won[k] by {
            lemma_slot(p.out@, 0, all, k);
        }
    }
}

/// One step of the incremental kernel: which scalar is tried, and when it fits.
proof fn lemma_walk_step(
    o: BytePrefixOwned,
    b: BytePrefix,
    s: Seq<char>,
    base: Seq<u8>,
    offset: int,
    n: nat,
    k: int,
)
    requires
        onion::valid_prefix(s),
        o.constrains(s),
        b.byte_prefix@ == o.byte_prefix@,
        b.last_byte_idx == o.last_byte_idx,
        b.last_byte_mask == o.last_byte_mask,
        base.len() == 32,
        0 <= k < n,
        (bytes::le_value(base) + offset) % bytes::two_256() + k < bytes::two_256(),
    ensures
        ({
            let c = kernel::walk_candidates(base, offset, n)[k];
            &&& c.key.len() == 32
            &&& c.key == bytes::le_bytes(
                (bytes::le_value(base) + offset) % bytes::two_256() + k,
                32,
            )
            &&& b.fits(c.data) == s.is_prefix_of(
                onion::onion_address(keys::public_key(bytes::le_value(c.key))),
            )
        }),
{
    let m: int = (bytes::le_value(base) + offset) % bytes::two_256() + k;
    gate::lemma_walk_candidate_passes(o, b, s, base, offset, n, k);
    gate::lemma_walk_secret(base, offset, k);
    bytes::lemma_le_bytes_len(m, 32);
    keys::lemma_reduced_key(m as nat);
}

/// The purpose of the incremental kernel: a thread owns the scalars from its start on, one for each
/// iteration. After a launch that starts with an empty counter, every accepted prefix has counted
/// exactly those of them whose address starts with it, and its slots hold the first ones, in order.
///
/// The walk must not pass `2^256`, where scalars wrap and points do not.
pub proof fn lemma_walk_launch(
    seed: Seq<u8>,
    iters: u64,
    tid: u64,
    before: Seq<BytePrefix>,
    after: Seq<BytePrefix>,
    q: int,
    o: BytePrefixOwned,
    s: Seq<char>,
)
    requires
        kernel::tried_all(
            before,
            kernel::walk_candidates(seed, kernel::thread_offset(tid, iters), iters as nat),
            after,
        ),
        seed.len() == 32,
        0 <= q < before.len(),
        0 < s.len() <= 51,
        forall|i: int|
            0 <= i < s.len() ==> 97 <= (#[trigger] s[i]) as int <= 122 || 50 <= s[i] as int <= 55,
        o.constrains(s),
        before[q].byte_prefix@ == o.byte_prefix@,
        before[q].last_byte_idx == o.last_byte_idx,
        before[q].last_byte_mask == o.last_byte_mask,
        before[q].out@.len() == 2048,
        before[q].found == 0,
        (bytes::le_value(seed) + (tid * iters) % 0x10000000000000000)
            % 0x10000000000000000000000000000000000000000000000000000000000000000int + iters
            <= 0x10000000000000000000000000000000000000000000000000000000000000000int,
    ensures
        ({
            let start = (bytes::le_value(seed) + (tid * iters) % 0x10000000000000000)
                % 0x10000000000000000000000000000000000000000000000000000000000000000int;
            let owned = Seq::new(iters as nat, |k: int| bytes::le_bytes(start + k, 32));
            let won = owned.filter(
                |x: Seq<u8>|
                    s.is_prefix_of(onion::onion_address(keys::public_key(bytes::le_value(x)))),
            );
            &&& after[q].found == won.len() % 0x100000000
            &&& won.len() < 0x100000000 ==> forall|k: int|
                0 <= k < won.len() && k < 64 ==> after[q].out@.subrange(32 * k, 32 * k + 32)
                    == #[trigger] won[k]
        }),
{
    let offset: int = kernel::thread_offset(tid, iters);
    let start: int = (bytes::le_value(seed) + offset) % bytes::two_256();
    let tried = kernel::walk_candidates(seed, offset, iters as nat);
    let owned = Seq::new(iters as nat, |k: int| bytes::le_bytes(start + k, 32));
    let wanted = |x: Seq<u8>|
        s.is_prefix_of(onion::onion_address(keys::public_key(bytes::le_value(x))));
    assert(onion::valid_prefix(s));
    assert forall|k: int| 0 <= k < tried.len() implies (#[trigger] tried[k]).key == owned[k]
        && tried[k].key.len() == 32 && before[q].fits(tried[k].data) == wanted(tried[k].key) by {
        lemma_walk_step(o, before[q], s, seed, offset, iters as nat, k);
    }
    assert(tried.map_values(|c: Candidate| c.key) =~= owned);
    lemma_wanted(before, tried, after, q, wanted);
}

/// One step of the seed kernel: which seed is tried, and when it fits.
proof fn lemma_seed_step(
    o: BytePrefixOwned,
    b: BytePrefix,
    s: Seq<char>,
    seed: Seq<u8>,
    x: u64,
    stride: u64,
    n: nat,
    k: int,
)
    requires
        onion::valid_prefix(s),
        o.constrains(s),
        b.byte_prefix@ == o.byte_prefix@,
        b.last_byte_idx == o.last_byte_idx,
        b.last_byte_mask == o.last_byte_mask,
        0 <= k < n,
    ensures
        ({
            let c = kernel::seed_candidates(seed, x, stride, n)[k];
            let m = bytes::le_value(keys::sha512(c.key).take(32));
            &&& c.key.len() == 32
            &&& c.key == bytes::le_bytes(
                (bytes::le_value(seed) + (x + k * stride) % 0x10000000000000000)
                    % 0x10000000000000000000000000000000000000000000000000000000000000000int,
                32,
            )
            &&& b.fits(c.data) == s.is_prefix_of(
                onion::onion_address(
                    keys::public_key(
                        (m / 8 * 8)
                            % 28948022309329048855892746252171976963317496166410141009864396001978282409984int
                            + 28948022309329048855892746252171976963317496166410141009864396001978282409984int,
                    ),
                ),
            )
        }),
{
    gate::lemma_seed_candidate_passes(o, b, s, seed, x, stride, n, k);
    lemma_seed_candidate(seed, x, stride, n, k);
}

/// The purpose of the seed kernel: a thread tries the seeds with the indices `x`, `x + stride` and so
/// on. After a launch that starts with an empty counter, every accepted prefix has counted exactly
/// those of them whose address starts with it, and its slots hold the first ones, in order. The
/// address of a seed is that of the clamped first half of its SHA-512 digest.
pub proof fn lemma_seed_launch(
    seed: Seq<u8>,
    iters: u64,
    x: u64,
    stride: u64,
    before: Seq<BytePrefix>,
    after: Seq<BytePrefix>,
    q: int,
    o: BytePrefixOwned,
    s: Seq<char>,
)
    requires
        kernel::tried_all(
            before,
            kernel::seed_candidates(seed, x, stride, iters as nat),
            after,
        ),
        0 <= q < before.len(),
        0 < s.len() <= 51,
        forall|i: int|
            0 <= i < s.len() ==> 97 <= (#[trigger] s[i]) as int <= 122 || 50 <= s[i] as int <= 55,
        o.constrains(s),
        before[q].byte_prefix@ == o.byte_prefix@,
        before[q].last_byte_idx == o.last_byte_idx,
        before[q].last_byte_mask == o.last_byte_mask,
        before[q].out@.len() == 2048,
        before[q].found == 0,
    ensures
        ({
            let tries = Seq::new(
                iters as nat,
                |k: int|
                    bytes::le_bytes(
                        (bytes::le_value(seed) + (x + k * stride) % 0x10000000000000000)
                            % 0x10000000000000000000000000000000000000000000000000000000000000000int,
                        32,
                    ),
            );
            let won = tries.filter(
                |x: Seq<u8>|
                    {
                        let n = bytes::le_value(keys::sha512(x).take(32));
                        s.is_prefix_of(
                            onion::onion_address(
                                keys::public_key(
                                    (n / 8 * 8)
                                        % 28948022309329048855892746252171976963317496166410141009864396001978282409984int
                                        + 28948022309329048855892746252171976963317496166410141009864396001978282409984int,
                                ),
                            ),
                        )
                    },
            );
            &&& after[q].found == won.len() % 0x100000000
            &&& won.len() < 0x100000000 ==> forall|k: int|
                0 <= k < won.len() && k < 64 ==> after[q].out@.subrange(32 * k, 32 * k + 32)
                    == #[trigger] won[k]
        }),
{
    let tried = kernel::seed_candidates(seed, x, stride, iters as nat);
    let tries = Seq::new(
        iters as nat,
        |k: int|
            bytes::le_bytes(
                (bytes::le_value(seed) + (x + k * stride) % 0x10000000000000000)
                    % 0x10000000000000000000000000000000000000000000000000000000000000000int,
                32,
            ),
    );
    let wanted = |x: Seq<u8>|
        {
            let n = bytes::le_value(keys::sha512(x).take(32));
            s.is_prefix_of(
                onion::onion_address(
                    keys::public_key(
                        (n / 8 * 8)
                            % 28948022309329048855892746252171976963317496166410141009864396001978282409984int
                            + 28948022309329048855892746252171976963317496166410141009864396001978282409984int,
                    ),
                ),
            )
        };
    assert(onion::valid_prefix(s));
    assert forall|k: int| 0 <= k < tried.len() implies (#[trigger] tried[k]).key == tries[k]
        && tried[k].key.len() == 32 && before[q].fits(tried[k].data) == wanted(tried[k].key) by {
        lemma_seed_step(o, before[q], s, seed, x, stride, iters as nat, k);
    }
    assert(tried.map_values(|c: Candidate| c.key) =~= tries);
    lemma_wanted(before, tried, after, q, wanted);
}

/// One recorded key: the counter goes up by one, the next slot holds the key if there is one, and
/// nothing else changes.
pub proof fn lemma_one_recorded(before: BytePrefix, key: Seq<u8>, after: BytePrefix, j: int)
    requires
        before.recorded(seq![key], after),
        before.out@.len() == 2048,
        key.len() == 32,
        0 <= j < 64,
    ensures
        after.found == (before.found + 1) % 0x100000000,
        after.byte_prefix@ == before.byte_prefix@,
        after.last_byte_idx == before.last_byte_idx,
        after.last_byte_mask == before.last_byte_mask,
        after.out@.len() == 2048,
        after.out@.subrange(32 * j, 32 * j + 32) == (if j == before.found {
            key
        } else {
            before.out@.subrange(32 * j, 32 * j + 32)
        }),
{
    lemma_slot(before.out@, before.found as int, seq![key], j);
}

/// The candidates of a walk, one for each iteration: the public key of the start and as many steps,
/// and the scalar, which wraps at `2^256`.
pub proof fn lemma_walk_candidate(base: Seq<u8>, offset: int, n: nat, k: int)
    requires
        0 <= k < n,
    ensures
        ({
            let all = kernel::walk_candidates(base, offset, n);
            &&& all.len() == n
            &&& all[k].key.len() == 32
            &&& bytes::le_value(all[k].key) == (bytes::le_value(base) + offset + k)
                % 0x10000000000000000000000000000000000000000000000000000000000000000int
            &&& all[k].data == keys::public_key(
                (bytes::le_value(base) + offset)
                    % 0x10000000000000000000000000000000000000000000000000000000000000000int + k,
            )
        }),
{
    let m: int = (bytes::le_value(base) + (offset + k)) % bytes::two_256();
    bytes::lemma_two_256();
    bytes::lemma_le_bytes_len(m, 32);
    bytes::lemma_le_value_of_bytes(m, 32);
}

/// The candidates of the seed kernel, one for each iteration: the seed with the index of the step,
/// and its public key.
pub proof fn lemma_seed_candidate(seed: Seq<u8>, x: u64, stride: u64, n: nat, k: int)
    requires
        0 <= k < n,
    ensures
        ({
            let all = kernel::seed_candidates(seed, x, stride, n);
            let digest = keys::sha512(all[k].key);
            let m = bytes::le_value(digest.take(32));
            &&& all.len() == n
            &&& all[k].key.len() == 32
            &&& bytes::le_value(all[k].key) == (bytes::le_value(seed) + (x + k * stride)
                % 0x10000000000000000)
                % 0x10000000000000000000000000000000000000000000000000000000000000000int
            &&& all[k].data == keys::public_key(
                (m / 8 * 8)
                    % 28948022309329048855892746252171976963317496166410141009864396001978282409984int
                    + 28948022309329048855892746252171976963317496166410141009864396001978282409984int,
            )
        }),
{
    let m: int = (bytes::le_value(seed) + kernel::stepped(x, stride, k)) % bytes::two_256();
    bytes::lemma_two_256();
    bytes::lemma_le_bytes_len(m, 32);
    bytes::lemma_le_value_of_bytes(m, 32);
}

/// Where a thread of the incremental kernel starts, above the seed: its number times the iterations,
/// modulo `2^64`.
pub proof fn lemma_thread_start(tid: u64, iters: u64)
    ensures
        kernel::thread_offset(tid, iters) == (tid * iters) % 0x10000000000000000,
{
}

/// What the self-test records is the public key of the seed and as many steps as there are
/// iterations.
pub proof fn lemma_selftest(seed: Seq<u8>, iters: u64)
    ensures
        kernel::selftest_key(seed, iters) == keys::public_key(bytes::le_value(seed) + iters),
{
}

} // verus!
