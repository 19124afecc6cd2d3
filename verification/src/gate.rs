//! What the kernels record passes the host's check: the address that is derived again from a
//! recorded secret starts with the prefix.
use vstd::arithmetic::mul::*;
use vstd::prelude::*;

use crate::bytes;
use crate::edwards;
use crate::kernel;
use crate::kernel::{BytePrefix, Candidate};
use crate::keys;
use crate::keys::Algo;
use crate::modular;
use crate::onion;
use crate::order;
use crate::point;
use crate::prefix;
use crate::prefix::BytePrefixOwned;

verus! {

/// A public key has 32 bytes.
proof fn lemma_public_key_len(n: int)
    ensures
        keys::public_key(n).len() == 32,
{
    bytes::lemma_le_bytes_len(
        point::encoding(edwards::times(n as nat, edwards::base())),
        32,
    );
}

/// The seed kernel records what the host accepts: a seed is recorded for a prefix exactly when the
/// address that the host derives from the seed starts with the prefix.
pub proof fn lemma_seed_candidate_passes(
    o: BytePrefixOwned,
    b: BytePrefix,
    s: Seq<char>,
    seed: Seq<u8>,
    x: u64,
    stride: u64,
    n: nat,
    k: int,
)
    requires
        onion::valid_prefix(s),
        o.constrains(s),
        prefix::views(o, b),
        0 <= k < n,
    ensures
        ({
            let c = kernel::seed_candidates(seed, x, stride, n)[k];
            b.fits(c.data) <==> s.is_prefix_of(keys::derived_address(Algo::Seed, c.key))
        }),
{
    let c = kernel::seed_candidates(seed, x, stride, n)[k];
    lemma_public_key_len(keys::derived_scalar(Algo::Seed, c.key));
    prefix::lemma_fits_is_prefix(
        o,
        b,
        s,
        c.data,
        onion::sha3_256(onion::checksum_input(c.data)),
    );
}

/// The scalar that is recorded for a step of a walk that does not pass `2^256`.
pub proof fn lemma_walk_secret(base: Seq<u8>, offset: int, k: int)
    requires
        0 <= k,
        (bytes::le_value(base) + offset) % bytes::two_256() + k < bytes::two_256(),
    ensures
        ({
            let m = (bytes::le_value(base) + offset) % bytes::two_256() + k;
            &&& kernel::indexed_seed(base, offset + k) == bytes::le_bytes(m, 32)
            &&& bytes::le_value(bytes::le_bytes(m, 32)) == m
        }),
{
    let a: int = (bytes::le_value(base) + offset) % bytes::two_256();
    modular::lemma_cong_reduce(bytes::le_value(base) + offset, bytes::two_256());
    modular::lemma_cong_add(bytes::le_value(base) + offset, a, k, k, bytes::two_256());
    modular::lemma_small(a + k, bytes::two_256());
    bytes::lemma_two_256();
    bytes::lemma_le_value_of_bytes(a + k, 32);
}

/// The incremental kernel records what the host accepts: as long as the walk does not pass `2^256`,
/// a scalar is recorded exactly when the address that the host derives from it starts with the
/// prefix.
///
/// Beyond `2^256` the recorded scalar wraps and the walk does not.
pub proof fn lemma_walk_candidate_passes(
    o: BytePrefixOwned,
    b: BytePrefix,
    s: Seq<char>,
    base: Seq<u8>,
    offset: int,
    n: nat,
    k: int,
)
    requires
        onion::valid_prefix(s),
        o.constrains(s),
        prefix::views(o, b),
        base.len() == 32,
        0 <= k < n,
        (bytes::le_value(base) + offset) % bytes::two_256() + k < bytes::two_256(),
    ensures
        ({
            let c = kernel::walk_candidates(base, offset, n)[k];
            b.fits(c.data) <==> s.is_prefix_of(keys::derived_address(Algo::Incremental, c.key))
        }),
{
    let c = kernel::walk_candidates(base, offset, n)[k];
    let a: int = (bytes::le_value(base) + offset) % bytes::two_256();
    // the recorded scalar is a + k
    lemma_walk_secret(base, offset, k);
    // and reducing it keeps the public key
    keys::lemma_reduced_key((a + k) as nat);
    lemma_public_key_len(a + k);
    prefix::lemma_fits_is_prefix(
        o,
        b,
        s,
        c.data,
        onion::sha3_256(onion::checksum_input(c.data)),
    );
}

/// Every recorded secret is that of a candidate that fits.
pub proof fn lemma_hit_is_candidate(p: BytePrefix, tried: Seq<Candidate>, i: int) -> (k: int)
    requires
        0 <= i < kernel::hits(p, tried).len(),
    ensures
        0 <= k < tried.len(),
        p.fits(tried[k].data),
        kernel::hits(p, tried)[i] == tried[k].key,
    decreases tried.len(),
{
    let before = kernel::hits(p, tried.drop_last());
    if i < before.len() {
        let k = lemma_hit_is_candidate(p, tried.drop_last(), i);
        assert(tried.drop_last()[k] == tried[k]);
        k
    } else {
        tried.len() - 1
    }
}

/// No match is missed: the secret of every candidate that fits is recorded.
pub proof fn lemma_hits_complete(p: BytePrefix, tried: Seq<Candidate>, k: int)
    requires
        0 <= k < tried.len(),
        p.fits(tried[k].data),
    ensures
        kernel::hits(p, tried).contains(tried[k].key),
    decreases tried.len(),
{
    let last: int = tried.len() - 1;
    let before = kernel::hits(p, tried.drop_last());
    let all = kernel::hits(p, tried);
    if k == last {
        assert(all.last() == tried[k].key);
    } else {
        assert(tried.drop_last()[k] == tried[k]);
        lemma_hits_complete(p, tried.drop_last(), k);
        let i = choose|i: int| 0 <= i < before.len() && before[i] == tried[k].key;
        assert(all[i] == tried[k].key);
    }
}

/// Every scalar that the incremental kernel records for a prefix passes the host's check, as long
/// as the walk does not pass `2^256`.
pub proof fn lemma_walk_hits_pass(
    o: BytePrefixOwned,
    b: BytePrefix,
    s: Seq<char>,
    base: Seq<u8>,
    offset: int,
    n: nat,
    i: int,
)
    requires
        onion::valid_prefix(s),
        o.constrains(s),
        prefix::views(o, b),
        base.len() == 32,
        (bytes::le_value(base) + offset) % bytes::two_256() + n <= bytes::two_256(),
        0 <= i < kernel::hits(b, kernel::walk_candidates(base, offset, n)).len(),
    ensures
        s.is_prefix_of(
            keys::derived_address(
                Algo::Incremental,
                kernel::hits(b, kernel::walk_candidates(base, offset, n))[i],
            ),
        ),
{
    let k = lemma_hit_is_candidate(b, kernel::walk_candidates(base, offset, n), i);
    lemma_walk_candidate_passes(o, b, s, base, offset, n, k);
}

/// The incremental kernel misses nothing: it records every scalar of its walk whose address starts
/// with an accepted prefix, as long as the walk does not pass `2^256`.
pub proof fn lemma_walk_misses_nothing(
    o: BytePrefixOwned,
    b: BytePrefix,
    s: Seq<char>,
    base: Seq<u8>,
    offset: int,
    n: nat,
    k: int,
)
    requires
        onion::valid_prefix(s),
        o.constrains(s),
        prefix::views(o, b),
        base.len() == 32,
        0 <= k < n,
        (bytes::le_value(base) + offset) % bytes::two_256() + k < bytes::two_256(),
        s.is_prefix_of(
            keys::derived_address(Algo::Incremental, kernel::indexed_seed(base, offset + k)),
        ),
    ensures
        kernel::hits(b, kernel::walk_candidates(base, offset, n)).contains(
            kernel::indexed_seed(base, offset + k),
        ),
{
    lemma_walk_candidate_passes(o, b, s, base, offset, n, k);
    lemma_hits_complete(b, kernel::walk_candidates(base, offset, n), k);
}

/// The seed kernel misses nothing: it records every seed that it tries whose address starts with an
/// accepted prefix.
pub proof fn lemma_seed_misses_nothing(
    o: BytePrefixOwned,
    b: BytePrefix,
    s: Seq<char>,
    seed: Seq<u8>,
    x: u64,
    stride: u64,
    n: nat,
    k: int,
)
    requires
        onion::valid_prefix(s),
        o.constrains(s),
        prefix::views(o, b),
        0 <= k < n,
        s.is_prefix_of(
            keys::derived_address(
                Algo::Seed,
                kernel::indexed_seed(seed, kernel::stepped(x, stride, k)),
            ),
        ),
    ensures
        kernel::hits(b, kernel::seed_candidates(seed, x, stride, n)).contains(
            kernel::indexed_seed(seed, kernel::stepped(x, stride, k)),
        ),
{
    lemma_seed_candidate_passes(o, b, s, seed, x, stride, n, k);
    lemma_hits_complete(b, kernel::seed_candidates(seed, x, stride, n), k);
}

/// Every seed that the seed kernel records for a prefix passes the host's check.
pub proof fn lemma_seed_hits_pass(
    o: BytePrefixOwned,
    b: BytePrefix,
    s: Seq<char>,
    seed: Seq<u8>,
    x: u64,
    stride: u64,
    n: nat,
    i: int,
)
    requires
        onion::valid_prefix(s),
        o.constrains(s),
        prefix::views(o, b),
        0 <= i < kernel::hits(b, kernel::seed_candidates(seed, x, stride, n)).len(),
    ensures
        s.is_prefix_of(
            keys::derived_address(
                Algo::Seed,
                kernel::hits(b, kernel::seed_candidates(seed, x, stride, n))[i],
            ),
        ),
{
    let k = lemma_hit_is_candidate(b, kernel::seed_candidates(seed, x, stride, n), i);
    lemma_seed_candidate_passes(o, b, s, seed, x, stride, n, k);
}

/// The walk of the incremental kernel is sound: `[a]B + [k]B` is `[a + k]B`, so the secret of step
/// `k` is `a + k`.
pub proof fn lemma_walk_sound(a: nat, k: nat)
    ensures
        edwards::plus(
            edwards::times(a, edwards::base()),
            edwards::times(k, edwards::base()),
        ) == edwards::times(a + k, edwards::base()),
{
    order::lemma_base_valid();
    edwards::lemma_times_adds(a, k, edwards::base());
}

/// The threads of a launch of the incremental kernel own disjoint ranges of scalars, if the
/// launch does not use up all the offsets.
pub proof fn lemma_threads_disjoint(t: u64, u: u64, iters: u64, j: int, k: int)
    requires
        t < u,
        (u + 1) * iters <= 0x10000000000000000,
        0 <= j < iters,
        0 <= k < iters,
    ensures
        kernel::thread_offset(t, iters) + j < kernel::thread_offset(u, iters) + k,
{
    let m: int = iters as int;
    lemma_mul_is_distributive_add_other_way(m, u as int, 1);
    lemma_mul_is_distributive_add_other_way(m, t as int, 1);
    lemma_mul_basics(m);
    lemma_mul_inequality(t + 1, u as int, m);
    lemma_mul_nonnegative(t as int, m);
    modular::lemma_small(t * iters, 0x10000000000000000);
    modular::lemma_small(u * iters, 0x10000000000000000);
}

/// The threads of a launch of the seed kernel try different indices, if the launch does not use up
/// all of them.
pub proof fn lemma_strides_disjoint(x: u64, y: u64, stride: u64, j: int, k: int, n: int)
    requires
        x < y < stride,
        0 <= j < n,
        0 <= k < n,
        n * stride <= 0x10000000000000000,
    ensures
        kernel::stepped(x, stride, j) != kernel::stepped(y, stride, k),
{
    let m: int = stride as int;
    lemma_mul_inequality(j + 1, n, m);
    lemma_mul_inequality(k + 1, n, m);
    lemma_mul_is_distributive_add_other_way(m, j, 1);
    lemma_mul_is_distributive_add_other_way(m, k, 1);
    lemma_mul_basics(m);
    lemma_mul_nonnegative(j, m);
    lemma_mul_nonnegative(k, m);
    modular::lemma_small(x + j * stride, 0x10000000000000000);
    modular::lemma_small(y + k * stride, 0x10000000000000000);
    if j < k {
        lemma_mul_inequality(j + 1, k, m);
    } else if k < j {
        lemma_mul_inequality(k + 1, j, m);
    }
}

} // verus!
