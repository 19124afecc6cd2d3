//! The search kernels: the work of one thread of a launch.
use vstd::arithmetic::mul::*;
use vstd::prelude::*;

use crate::bytes;
use crate::bytes::add_u256;
use crate::edwards;
use crate::field;
use crate::field::{fe_batch_invert, fe_mul, Fe};
use crate::fp;
use crate::keys;
use crate::keys::public_key_of_seed;
use crate::laws;
use crate::modular;
use crate::point;
use crate::point::{base_cached, compress, encode_affine, pt_add_base, scalar_mul_base};

verus! {

/// How many matches of a prefix one launch can hand back.
pub const OUT_SLOTS: u32 = 64;

/// How many points of the walk share one inversion.
pub const WINDOW: usize = 32;

/// A prefix as the kernels see it: the bits that a key has to start with, and the memory that
/// receives the matches.
pub struct BytePrefix {
    /// The bytes that the prefix decodes to.
    pub byte_prefix: Vec<u8>,
    /// How many bytes are constrained in full.
    pub last_byte_idx: usize,
    /// The constrained bits of the byte after those; zero if there are none.
    pub last_byte_mask: u8,
    /// [`OUT_SLOTS`] slots of 32 bytes, one for each match claimed in this launch.
    pub out: Vec<u8>,
    /// How many matches were claimed.
    pub found: u32,
}

/// Where the 32 bytes of a match go, if its slot exists.
pub open spec fn claimed(out: Seq<u8>, slot: int, key: Seq<u8>) -> Seq<u8> {
    if slot < OUT_SLOTS {
        out.subrange(0, 32 * slot) + key + out.subrange(32 * slot + 32, out.len() as int)
    } else {
        out
    }
}

/// The slots after recording the keys, the first of them as claim number `found`.
pub open spec fn out_after(out: Seq<u8>, found: int, keys: Seq<Seq<u8>>) -> Seq<u8>
    decreases keys.len(),
{
    if keys.len() == 0 {
        out
    } else {
        claimed(
            out_after(out, found, keys.drop_last()),
            (found + keys.len() - 1) % 0x100000000,
            keys.last(),
        )
    }
}

impl BytePrefix {
    /// The constrained bytes exist in the prefix and in a key, and the slots are all there.
    pub open spec fn wf(self) -> bool {
        &&& self.last_byte_idx <= self.byte_prefix@.len()
        &&& self.last_byte_idx <= 32
        &&& self.last_byte_mask != 0 ==> self.last_byte_idx < self.byte_prefix@.len()
            && self.last_byte_idx < 32
        &&& self.out@.len() == 32 * OUT_SLOTS
    }

    /// The data starts with the bits of the prefix.
    pub open spec fn fits(self, data: Seq<u8>) -> bool {
        &&& forall|i: int|
            0 <= i < self.last_byte_idx ==> #[trigger] data[i] == self.byte_prefix@[i]
        &&& self.last_byte_mask != 0 ==> data[self.last_byte_idx as int] & self.last_byte_mask
            == self.byte_prefix@[self.last_byte_idx as int] & self.last_byte_mask
    }

    /// The state after the keys were recorded in order.
    pub open spec fn recorded(self, keys: Seq<Seq<u8>>, after: BytePrefix) -> bool {
        &&& after.byte_prefix@ == self.byte_prefix@
        &&& after.last_byte_idx == self.last_byte_idx
        &&& after.last_byte_mask == self.last_byte_mask
        &&& after.found == (self.found + keys.len()) % 0x100000000
        &&& after.out@ == out_after(self.out@, self.found as int, keys)
    }

    /// Whether a public key starts with the prefix.
    pub fn matches(&self, data: &[u8; 32]) -> (r: bool)
        requires
            self.wf(),
        ensures
            r == self.fits(data@),
            r <==> (forall|i: int|
                0 <= i < self.last_byte_idx ==> #[trigger] data@[i] == self.byte_prefix@[i]) && (
            self.last_byte_mask != 0 ==> data@[self.last_byte_idx as int] & self.last_byte_mask
                == self.byte_prefix@[self.last_byte_idx as int] & self.last_byte_mask),
    {
        let mut i: usize = 0;
        while i < self.last_byte_idx
            invariant
                self.wf(),
                i <= self.last_byte_idx,
                forall|k: int| 0 <= k < i ==> #[trigger] data@[k] == self.byte_prefix@[k],
            decreases self.last_byte_idx - i,
        {
            if data[i] != self.byte_prefix[i] {
                return false;
            }
            i += 1;
        }
        if self.last_byte_mask == 0 {
            return true;
        }
        data[self.last_byte_idx] & self.last_byte_mask == self.byte_prefix[self.last_byte_idx]
            & self.last_byte_mask
    }

    /// Claims the next slot for a match. Matches beyond the last slot are counted and not kept.
    pub fn record(&mut self, key: &[u8; 32])
        requires
            old(self).wf(),
        ensures
            final(self).wf(),
            old(self).recorded(seq![key@], *final(self)),
            final(self).found == (old(self).found + 1) % 0x100000000,
            old(self).found < OUT_SLOTS ==> final(self).out@.subrange(
                32 * old(self).found as int,
                32 * old(self).found + 32,
            ) == key@,
            forall|i: int|
                0 <= i < old(self).out@.len() && !(32 * old(self).found <= i < 32 * old(self).found
                    + 32) ==> #[trigger] final(self).out@[i] == old(self).out@[i],
    {
        let slot: u32 = self.found;
        let ghost out0 = self.out@;
        self.found = slot.wrapping_add(1);
        if slot < OUT_SLOTS {
            let start: usize = 32 * slot as usize;
            let mut i: usize = 0;
            while i < 32
                invariant
                    i <= 32,
                    slot < OUT_SLOTS,
                    start == 32 * slot,
                    out0.len() == 32 * OUT_SLOTS,
                    self.out@.len() == 32 * OUT_SLOTS,
                    self.byte_prefix@ == old(self).byte_prefix@,
                    self.last_byte_idx == old(self).last_byte_idx,
                    self.last_byte_mask == old(self).last_byte_mask,
                    self.found == slot + 1,
                    forall|k: int| 0 <= k < start ==> #[trigger] self.out@[k] == out0[k],
                    forall|k: int|
                        start <= k < start + i ==> #[trigger] self.out@[k] == key@[k - start],
                    forall|k: int|
                        start + 32 <= k < out0.len() ==> #[trigger] self.out@[k] == out0[k],
                decreases 32 - i,
            {
                self.out[start + i] = key[i];
                i += 1;
            }
            assert(self.out@ =~= claimed(out0, slot as int, key@));
            assert(self.out@.subrange(32 * slot as int, 32 * slot + 32) =~= key@);
        }
        proof {
            let keys = seq![key@];
            assert(keys.drop_last() =~= Seq::empty());
            assert(out_after(out0, slot as int, keys.drop_last()) == out0);
            assert(keys.last() == key@);
        }
    }
}

/// Something that a kernel tries: the data that has to fit, and the secret that is recorded if
/// it does.
pub struct Candidate {
    pub data: Seq<u8>,
    pub key: Seq<u8>,
}

/// The secrets of the candidates that fit, in order.
pub open spec fn hits(p: BytePrefix, tried: Seq<Candidate>) -> Seq<Seq<u8>>
    decreases tried.len(),
{
    if tried.len() == 0 {
        Seq::empty()
    } else {
        let before = hits(p, tried.drop_last());
        if p.fits(tried.last().data) {
            before.push(tried.last().key)
        } else {
            before
        }
    }
}

/// Recording one more key after others.
proof fn lemma_recorded_push(
    a: BytePrefix,
    keys: Seq<Seq<u8>>,
    b: BytePrefix,
    key: Seq<u8>,
    c: BytePrefix,
)
    requires
        a.recorded(keys, b),
        b.recorded(seq![key], c),
    ensures
        a.recorded(keys.push(key), c),
{
    let one = seq![key];
    let all = keys.push(key);
    assert(one.drop_last() =~= Seq::empty());
    assert(all.drop_last() =~= keys);
    assert(out_after(b.out@, b.found as int, one.drop_last()) == b.out@);
    assert((b.found + 0) % 0x100000000 == (a.found + keys.len()) % 0x100000000);
}

/// Prefixes that differ only in what they recorded fit the same data.
proof fn lemma_same_fits(a: BytePrefix, keys: Seq<Seq<u8>>, b: BytePrefix, data: Seq<u8>)
    requires
        a.recorded(keys, b),
    ensures
        a.fits(data) == b.fits(data),
{
}

/// Every prefix after the candidates were tried.
pub open spec fn tried_all(
    before: Seq<BytePrefix>,
    tried: Seq<Candidate>,
    after: Seq<BytePrefix>,
) -> bool {
    &&& after.len() == before.len()
    &&& forall|q: int|
        0 <= q < before.len() ==> (#[trigger] after[q]).wf() && before[q].recorded(
            hits(before[q], tried),
            after[q],
        )
}

/// Before any candidate is tried.
proof fn lemma_tried_none(before: Seq<BytePrefix>)
    requires
        forall|q: int| 0 <= q < before.len() ==> (#[trigger] before[q]).wf(),
    ensures
        tried_all(before, Seq::empty(), before),
{
    assert forall|q: int| 0 <= q < before.len() implies before[q].recorded(
        hits(before[q], Seq::empty()),
        #[trigger] before[q],
    ) by {
        assert(hits(before[q], Seq::empty()) =~= Seq::empty());
    }
}

/// Tries one candidate on every prefix: records the secret where the data fits.
pub fn try_candidate(prefixes: &mut Vec<BytePrefix>, data: &[u8; 32], key: &[u8; 32])
    requires
        forall|q: int| 0 <= q < old(prefixes)@.len() ==> (#[trigger] old(prefixes)@[q]).wf(),
    ensures
        tried_all(old(prefixes)@, seq![Candidate { data: data@, key: key@ }], final(prefixes)@),
{
    let ghost before = prefixes@;
    let ghost one = seq![Candidate { data: data@, key: key@ }];
    let n: usize = prefixes.len();
    let mut q: usize = 0;
    proof {
        assert(one.drop_last() =~= Seq::empty());
    }
    while q < n
        invariant
            q <= n,
            n == prefixes@.len(),
            prefixes@.len() == before.len(),
            one == seq![Candidate { data: data@, key: key@ }],
            one.drop_last() == Seq::<Candidate>::empty(),
            forall|k: int| 0 <= k < before.len() ==> (#[trigger] before[k]).wf(),
            forall|k: int| q <= k < n ==> #[trigger] prefixes@[k] == before[k],
            forall|k: int|
                0 <= k < q ==> (#[trigger] prefixes@[k]).wf() && before[k].recorded(
                    hits(before[k], one),
                    prefixes@[k],
                ),
        decreases n - q,
    {
        let ghost p0 = before[q as int];
        proof {
            assert(hits(p0, one.drop_last()) =~= Seq::empty());
            assert(p0.fits(data@) ==> hits(p0, one) =~= seq![key@]);
        }
        if prefixes[q].matches(data) {
            prefixes[q].record(key);
        }
        q += 1;
    }
}

/// Whether data fits any of the prefixes.
pub fn fits_any(prefixes: &Vec<BytePrefix>, data: &[u8; 32]) -> (r: bool)
    requires
        forall|q: int| 0 <= q < prefixes@.len() ==> (#[trigger] prefixes@[q]).wf(),
    ensures
        r == exists|q: int| 0 <= q < prefixes@.len() && (#[trigger] prefixes@[q]).fits(data@),
        r <==> exists|q: int|
            0 <= q < prefixes@.len() && (forall|i: int|
                0 <= i < (#[trigger] prefixes@[q]).last_byte_idx ==> #[trigger] data@[i]
                    == prefixes@[q].byte_prefix@[i]) && (prefixes@[q].last_byte_mask != 0
                ==> data@[prefixes@[q].last_byte_idx as int] & prefixes@[q].last_byte_mask
                == prefixes@[q].byte_prefix@[prefixes@[q].last_byte_idx as int]
                & prefixes@[q].last_byte_mask),
{
    let mut q: usize = 0;
    while q < prefixes.len()
        invariant
            q <= prefixes@.len(),
            forall|k: int| 0 <= k < prefixes@.len() ==> (#[trigger] prefixes@[k]).wf(),
            forall|k: int| 0 <= k < q ==> !(#[trigger] prefixes@[k]).fits(data@),
        decreases prefixes@.len() - q,
    {
        if prefixes[q].matches(data) {
            return true;
        }
        q += 1;
    }
    false
}

/// A candidate that fits no prefix changes none.
proof fn lemma_tried_misfit(before: Seq<BytePrefix>, c: Candidate)
    requires
        forall|q: int| 0 <= q < before.len() ==> (#[trigger] before[q]).wf(),
        forall|q: int| 0 <= q < before.len() ==> !(#[trigger] before[q]).fits(c.data),
    ensures
        tried_all(before, seq![c], before),
{
    let one = seq![c];
    assert(one.drop_last() =~= Seq::empty());
    assert forall|q: int| 0 <= q < before.len() implies before[q].recorded(
        hits(before[q], one),
        #[trigger] before[q],
    ) by {
        assert(hits(before[q], one.drop_last()) =~= Seq::empty());
        assert(hits(before[q], one) =~= Seq::empty());
    }
}

/// Trying one more candidate after others.
proof fn lemma_tried_push(
    before: Seq<BytePrefix>,
    tried: Seq<Candidate>,
    mid: Seq<BytePrefix>,
    c: Candidate,
    after: Seq<BytePrefix>,
)
    requires
        tried_all(before, tried, mid),
        tried_all(mid, seq![c], after),
    ensures
        tried_all(before, tried.push(c), after),
{
    let one = seq![c];
    let all = tried.push(c);
    assert(one.drop_last() =~= Seq::empty());
    assert(all.drop_last() =~= tried);
    assert forall|q: int| 0 <= q < before.len() implies (#[trigger] after[q]).wf()
        && before[q].recorded(hits(before[q], all), after[q]) by {
        let h = hits(before[q], tried);
        assert(mid[q].wf());
        lemma_same_fits(before[q], h, mid[q], c.data);
        assert(hits(mid[q], one.drop_last()) =~= Seq::empty());
        if mid[q].fits(c.data) {
            assert(hits(mid[q], one) =~= seq![c.key]);
            lemma_recorded_push(before[q], h, mid[q], c.key, after[q]);
        } else {
            assert(hits(mid[q], one) =~= Seq::empty());
            assert(out_after(mid[q].out@, mid[q].found as int, Seq::empty()) == mid[q].out@);
        }
    }
}

/// What one launch works on.
pub struct KernelParams {
    /// The random number that the candidates of the launch start from.
    pub seed: [u8; 32],
    /// The prefixes to look for.
    pub byte_prefixes: Vec<BytePrefix>,
    /// How many candidates each thread tries.
    pub iters: u64,
}

impl KernelParams {
    /// Every prefix is well-formed.
    pub open spec fn wf(self) -> bool {
        forall|q: int|
            0 <= q < self.byte_prefixes@.len() ==> (#[trigger] self.byte_prefixes@[q]).wf()
    }
}

/// The index of step `k` of a thread that starts at `x` and steps by `stride`, which wraps at
/// `2^64`.
pub open spec fn stepped(x: u64, stride: u64, k: int) -> int {
    (x + k * stride) % 0x10000000000000000
}

/// The seed with an index.
pub open spec fn indexed_seed(seed: Seq<u8>, index: int) -> Seq<u8> {
    bytes::le_bytes((bytes::le_value(seed) + index) % bytes::two_256(), 32)
}

/// The candidates of one thread of [`render`]: fresh seeds and their public keys.
pub open spec fn seed_candidates(seed: Seq<u8>, x: u64, stride: u64, n: nat) -> Seq<Candidate> {
    Seq::new(
        n,
        |k: int|
            {
                let key = indexed_seed(seed, stepped(x, stride, k));
                Candidate { data: keys::public_key(keys::seed_scalar(keys::sha512(key))), key }
            },
    )
}

/// One more step of an index that wraps.
proof fn lemma_stepped(x: u64, stride: u64, k: int)
    requires
        k >= 0,
    ensures
        stepped(x, stride, k + 1) == (stepped(x, stride, k) + stride) % 0x10000000000000000,
        0 <= stepped(x, stride, k) < 0x10000000000000000,
        stepped(x, stride, 0) == x,
{
    let m: int = 0x10000000000000000;
    lemma_mul_is_distributive_add_other_way(stride as int, k, 1);
    lemma_mul_basics(stride as int);
    modular::lemma_cong_reduce(x + k * stride, m);
    modular::lemma_cong_add(x + k * stride, stepped(x, stride, k), stride as int, stride as int, m);
    modular::lemma_small(x as int, m);
}

/// The seed kernel, for one thread: tries `iters` seeds, those with the indices `x`,
/// `x + stride`, `x + 2 stride` and so on.
pub fn render(params: &mut KernelParams, x: u64, stride: u64)
    requires
        old(params).wf(),
        forall|k: int|
            0 <= k < old(params).iters ==> (bytes::le_value(old(params).seed@)
                + #[trigger] stepped(x, stride, k)) % bytes::two_256() != 0,
    ensures
        final(params).seed == old(params).seed,
        final(params).iters == old(params).iters,
        tried_all(
            old(params).byte_prefixes@,
            seed_candidates(old(params).seed@, x, stride, old(params).iters as nat),
            final(params).byte_prefixes@,
        ),
        // every prefix has counted the candidates that start with its bits, and its slots from the
        // first free one on hold their secrets
        forall|q: int|
            0 <= q < old(params).byte_prefixes@.len() ==> {
                let p = old(params).byte_prefixes@[q];
                let after = #[trigger] final(params).byte_prefixes@[q];
                let won = seed_candidates(old(params).seed@, x, stride, old(params).iters as nat).filter(
                    |c: Candidate|
                        (forall|i: int|
                            0 <= i < p.last_byte_idx ==> #[trigger] c.data[i] == p.byte_prefix@[i])
                            && (p.last_byte_mask != 0 ==> c.data[p.last_byte_idx as int]
                            & p.last_byte_mask == p.byte_prefix@[p.last_byte_idx as int]
                            & p.last_byte_mask),
                );
                &&& after.found == (p.found + won.len()) % 0x100000000
                &&& p.found + won.len() <= 0x100000000 ==> forall|j: int|
                    #![trigger after.out@.subrange(32 * j, 32 * j + 32)]
                    0 <= j < 64 ==> after.out@.subrange(32 * j, 32 * j + 32) == if p.found <= j
                        < p.found + won.len() {
                        won[j - p.found].key
                    } else {
                        p.out@.subrange(32 * j, 32 * j + 32)
                    }
            },
{
    let seed = params.seed;
    let iters: u64 = params.iters;
    let ghost before = params.byte_prefixes@;
    let ghost all = seed_candidates(seed@, x, stride, iters as nat);
    let mut idx: u64 = x;
    let mut k: u64 = 0;
    proof {
        lemma_stepped(x, stride, 0);
        lemma_tried_none(before);
        assert(all.take(0) =~= Seq::empty());
    }
    while k < iters
        invariant
            k <= iters,
            params.seed == seed,
            params.iters == iters,
            all == seed_candidates(seed@, x, stride, iters as nat),
            idx == stepped(x, stride, k as int),
            forall|k: int|
                0 <= k < iters ==> (bytes::le_value(seed@) + #[trigger] stepped(x, stride, k))
                    % bytes::two_256() != 0,
            tried_all(before, all.take(k as int), params.byte_prefixes@),
        decreases iters - k,
    {
        let cur_seed = add_u256(&seed, idx);
        let pk = public_key_of_seed(&cur_seed);
        let ghost mid = params.byte_prefixes@;
        try_candidate(&mut params.byte_prefixes, &pk, &cur_seed);
        proof {
            let c = Candidate { data: pk@, key: cur_seed@ };
            assert(all[k as int] == c);
            assert(all.take(k + 1) =~= all.take(k as int).push(c));
            lemma_tried_push(before, all.take(k as int), mid, c, params.byte_prefixes@);
            lemma_stepped(x, stride, k as int);
        }
        idx = idx.wrapping_add(stride);
        k += 1;
    }
    proof {
        assert(all.take(iters as int) =~= all);
        assert forall|k: int| 0 <= k < all.len() implies (#[trigger] all[k]).key.len() == 32 by {
            laws::launch::lemma_seed_candidate(seed@, x, stride, iters as nat, k);
        }
        assert forall|q: int| 0 <= q < before.len() implies (#[trigger] before[q]).out@.len()
            == 2048 by {
            assert(before[q].wf());
        }
        laws::launch::lemma_launches(before, all, params.byte_prefixes@);
    }
}

/// The candidates of one thread of [`render_incremental`], which owns the scalars from
/// `base + offset` on: the public keys along the walk, and the scalars.
pub open spec fn walk_candidates(base: Seq<u8>, offset: int, n: nat) -> Seq<Candidate> {
    let a = (bytes::le_value(base) + offset) % bytes::two_256();
    Seq::new(
        n,
        |k: int| Candidate { data: keys::public_key(a + k), key: indexed_seed(base, offset + k) },
    )
}

/// The scalars that a thread of [`render_incremental`] starts at, above the seed.
pub open spec fn thread_offset(tid: u64, iters: u64) -> int {
    (tid * iters) % 0x10000000000000000
}

/// The next point of a walk along the base point.
proof fn lemma_walk_step(n: nat)
    ensures
        edwards::plus(edwards::times(n, edwards::base()), edwards::base()) == edwards::times(
            n + 1,
            edwards::base(),
        ),
{
    assert((n + 1 - 1) as nat == n);
}

/// Coordinates that were set aside stand for a point: they are bounded, and the affine ones are
/// those of the point.
spec fn set_aside(x: Fe, y: Fe, z: Fe, a: edwards::Point) -> bool {
    &&& field::loose(x)
    &&& field::loose(y)
    &&& field::loose(z)
    &&& !fp::vanishes(field::value(z))
    &&& (field::value(x) * fp::inverse(field::value(z))) % fp::p() == a.x
    &&& (field::value(y) * fp::inverse(field::value(z))) % fp::p() == a.y
}

/// The incremental kernel, for one thread: multiplies the base point once, and then walks `iters`
/// points by adding the base point, with one inversion for each window of points.
///
/// What is tested is the whole public key: the characters of a prefix from the fiftieth on reach
/// the bit that holds the parity of the first coordinate.
pub fn render_incremental(params: &mut KernelParams, tid: u64)
    requires
        old(params).wf(),
        thread_offset(tid, old(params).iters) + old(params).iters <= 0x10000000000000000,
    ensures
        final(params).seed == old(params).seed,
        final(params).iters == old(params).iters,
        tried_all(
            old(params).byte_prefixes@,
            walk_candidates(
                old(params).seed@,
                thread_offset(tid, old(params).iters),
                old(params).iters as nat,
            ),
            final(params).byte_prefixes@,
        ),
        // every prefix has counted the candidates that start with its bits, and its slots from the
        // first free one on hold their secrets
        forall|q: int|
            0 <= q < old(params).byte_prefixes@.len() ==> {
                let p = old(params).byte_prefixes@[q];
                let after = #[trigger] final(params).byte_prefixes@[q];
                let won = walk_candidates(
                    old(params).seed@,
                    thread_offset(tid, old(params).iters),
                    old(params).iters as nat,
                ).filter(
                    |c: Candidate|
                        (forall|i: int|
                            0 <= i < p.last_byte_idx ==> #[trigger] c.data[i] == p.byte_prefix@[i])
                            && (p.last_byte_mask != 0 ==> c.data[p.last_byte_idx as int]
                            & p.last_byte_mask == p.byte_prefix@[p.last_byte_idx as int]
                            & p.last_byte_mask),
                );
                &&& after.found == (p.found + won.len()) % 0x100000000
                &&& p.found + won.len() <= 0x100000000 ==> forall|j: int|
                    #![trigger after.out@.subrange(32 * j, 32 * j + 32)]
                    0 <= j < 64 ==> after.out@.subrange(32 * j, 32 * j + 32) == if p.found <= j
                        < p.found + won.len() {
                        won[j - p.found].key
                    } else {
                        p.out@.subrange(32 * j, 32 * j + 32)
                    }
            },
{
    let iters: u64 = params.iters;
    let offset: u64 = tid.wrapping_mul(iters);
    let base = params.seed;
    let a_bytes = add_u256(&base, offset);
    let mut p = scalar_mul_base(&a_bytes);
    let (b_sub, b_add, b_d2t) = base_cached();

    let ghost before = params.byte_prefixes@;
    let ghost a: nat = bytes::le_value(a_bytes@) as nat;
    let ghost all = walk_candidates(base@, offset as int, iters as nat);
    proof {
        bytes::lemma_le_words(a_bytes@);
        lemma_tried_none(before);
        assert(all.take(0) =~= Seq::empty());
    }

    let mut xs: [Fe; 32] = [[0u64; 5]; 32];
    let mut ys: [Fe; 32] = [[0u64; 5]; 32];
    let mut zs: [Fe; 32] = [[0u64; 5]; 32];
    let mut scratch: [Fe; 32] = [[0u64; 5]; 32];

    let mut j: u64 = 0;
    while j < iters
        invariant
            j <= iters,
            offset + iters <= 0x10000000000000000,
            params.seed == base,
            params.iters == iters,
            all == walk_candidates(base@, offset as int, iters as nat),
            a == (bytes::le_value(base@) + offset) % bytes::two_256(),
            p.wf(),
            p.point() == edwards::times(a + j as nat, edwards::base()),
            point::base_terms(b_sub, b_add, b_d2t),
            tried_all(before, all.take(j as int), params.byte_prefixes@),
        decreases iters - j,
    {
        let remaining: u64 = iters - j;
        let w: usize = if remaining < WINDOW as u64 {
            remaining as usize
        } else {
            WINDOW
        };

        let mut i: usize = 0;
        while i < w
            invariant
                i <= w,
                w <= 32,
                j + w <= iters,
                p.wf(),
                p.point() == edwards::times((a + j + i) as nat, edwards::base()),
                point::base_terms(b_sub, b_add, b_d2t),
                forall|k: int|
                    0 <= k < i ==> set_aside(
                        xs@[k],
                        ys@[k],
                        #[trigger] zs@[k],
                        edwards::times((a + j + k) as nat, edwards::base()),
                    ),
            decreases w - i,
        {
            xs[i] = p.x;
            ys[i] = p.y;
            zs[i] = p.z;
            p = pt_add_base(&p, &b_sub, &b_add, &b_d2t);
            proof {
                lemma_walk_step((a + j + i) as nat);
            }
            i += 1;
        }

        let ghost zs0 = zs@;
        fe_batch_invert(&mut zs, &mut scratch, w);
        assert(field::all_units(zs0, w as int));

        let mut i: usize = 0;
        while i < w
            invariant
                i <= w,
                w <= 32,
                j + w <= iters,
                offset + iters <= 0x10000000000000000,
                params.seed == base,
                params.iters == iters,
                all == walk_candidates(base@, offset as int, iters as nat),
                a == (bytes::le_value(base@) + offset) % bytes::two_256(),
                forall|k: int|
                    0 <= k < w ==> set_aside(
                        xs@[k],
                        ys@[k],
                        #[trigger] zs0[k],
                        edwards::times((a + j + k) as nat, edwards::base()),
                    ),
                forall|k: int|
                    0 <= k < w ==> field::narrow(#[trigger] zs@[k]) && field::value(zs@[k])
                        % fp::p() == fp::inverse(field::value(zs0[k])),
                tried_all(before, all.take(j + i), params.byte_prefixes@),
            decreases w - i,
        {
            let ghost (x, y) = (xs@[i as int], ys@[i as int]);
            let ghost (z, zinv) = (zs0[i as int], zs@[i as int]);
            let ghost point = edwards::times((a + j + i) as nat, edwards::base());
            assert(set_aside(x, y, z, point));
            assert(field::narrow(zinv));
            let x_aff = fe_mul(&xs[i], &zs[i]);
            let y_aff = fe_mul(&ys[i], &zs[i]);
            let pk = encode_affine(&x_aff, &y_aff);
            let ghost mid = params.byte_prefixes@;
            let ghost c = all[j + i];
            proof {
                point::lemma_affine(
                    field::value(x),
                    field::value(z),
                    field::value(zinv),
                    field::value(x_aff),
                );
                point::lemma_affine(
                    field::value(y),
                    field::value(z),
                    field::value(zinv),
                    field::value(y_aff),
                );
                bytes::lemma_le_bytes(pk@);
                assert(c.data == pk@);
                assert forall|q: int| 0 <= q < mid.len() implies (#[trigger] mid[q]).wf() by {
                    assert(mid[q].wf());
                }
            }
            if fits_any(&params.byte_prefixes, &pk) {
                let scalar = add_u256(&base, offset + j + i as u64);
                assert(c.key == scalar@);
                try_candidate(&mut params.byte_prefixes, &pk, &scalar);
            } else {
                proof {
                    lemma_tried_misfit(mid, c);
                }
            }
            proof {
                assert(all.take(j + i + 1) =~= all.take(j + i).push(c));
                lemma_tried_push(before, all.take(j + i), mid, c, params.byte_prefixes@);
            }
            i += 1;
        }

        j += w as u64;
    }
    proof {
        assert(all.take(iters as int) =~= all);
        assert forall|k: int| 0 <= k < all.len() implies (#[trigger] all[k]).key.len() == 32 by {
            laws::launch::lemma_walk_candidate(base@, offset as int, iters as nat, k);
        }
        assert forall|q: int| 0 <= q < before.len() implies (#[trigger] before[q]).out@.len()
            == 2048 by {
            assert(before[q].wf());
        }
        laws::launch::lemma_launches(before, all, params.byte_prefixes@);
    }
}

/// The point that [`selftest`] reports: the multiple of the base point by the seed plus `iters`,
/// encoded.
pub open spec fn selftest_key(seed: Seq<u8>, iters: u64) -> Seq<u8> {
    bytes::le_bytes(
        point::encoding(
            edwards::times((bytes::le_value(seed) + iters) as nat, edwards::base()),
        ),
        32,
    )
}

/// Walks `iters` steps from the multiple of the base point by the seed, and records the encoding
/// of the point where that ends for the first prefix.
pub fn selftest(params: &mut KernelParams)
    requires
        old(params).wf(),
        old(params).byte_prefixes@.len() > 0,
    ensures
        final(params).wf(),
        final(params).seed == old(params).seed,
        final(params).iters == old(params).iters,
        final(params).byte_prefixes@.len() == old(params).byte_prefixes@.len(),
        old(params).byte_prefixes@[0].recorded(
            seq![selftest_key(old(params).seed@, old(params).iters)],
            final(params).byte_prefixes@[0],
        ),
        forall|q: int|
            1 <= q < old(params).byte_prefixes@.len() ==> #[trigger] final(params).byte_prefixes@[q]
                == old(params).byte_prefixes@[q],
{
    let base = params.seed;
    let iters: u64 = params.iters;
    let mut p = scalar_mul_base(&base);
    let (b_sub, b_add, b_d2t) = base_cached();
    let ghost a: nat = bytes::le_value(base@) as nat;
    let mut step: u64 = 0;
    proof {
        bytes::lemma_le_words(base@);
    }
    while step < iters
        invariant
            step <= iters,
            p.wf(),
            p.point() == edwards::times(a + step as nat, edwards::base()),
            point::base_terms(b_sub, b_add, b_d2t),
        decreases iters - step,
    {
        p = pt_add_base(&p, &b_sub, &b_add, &b_d2t);
        proof {
            lemma_walk_step(a + step as nat);
        }
        step += 1;
    }
    let c = compress(&p);
    proof {
        bytes::lemma_le_bytes(c@);
    }
    params.byte_prefixes[0].record(&c);
}

/// What [`selftest`] reports is the public key of the seed plus `iters`, modulo the order of the
/// base point: what scalar arithmetic modulo the order gives.
pub proof fn lemma_selftest_reference(seed: Seq<u8>, iters: u64)
    requires
        seed.len() == 32,
    ensures
        selftest_key(seed, iters) == keys::public_key(
            (bytes::le_value(seed) % edwards::order() + iters) % edwards::order(),
        ),
{
    let n: int = bytes::le_value(seed);
    let l: int = edwards::order();
    bytes::lemma_le_words(seed);
    modular::lemma_cong_reduce(n, l);
    modular::lemma_cong_add(n, n % l, iters as int, iters as int, l);
    keys::lemma_reduced_key((n + iters) as nat);
}

/// The index of a thread among all threads of a launch.
pub fn thread_index(block_dim: u32, block_idx: u32, thread_idx: u32) -> (r: u64)
    ensures
        r == block_dim * block_idx + thread_idx,
{
    proof {
        lemma_mul_upper_bound(
            block_dim as int,
            u32::MAX as int,
            block_idx as int,
            u32::MAX as int,
        );
    }
    block_dim as u64 * block_idx as u64 + thread_idx as u64
}

} // verus!
