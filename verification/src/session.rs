//! A run of the search: what is looked for, what has been found, and what becomes of a match.
use vstd::arithmetic::power2::*;
use vstd::bits::*;
use vstd::prelude::*;

use crate::kernel::OUT_SLOTS;
use crate::keys;
use crate::keys::{derive_key, random_below, Algo, DerivedKey};
use crate::laws;
use crate::onion;
use crate::onion::{normalize_prefix, IMPRACTICAL_PREFIX_CHARS};
use crate::prefix::BytePrefixOwned;
use crate::text;
use crate::text::{chars_of, push_decimal, push_str, starts_with, string_of};

verus! {

/// What is known of one device.
pub struct DeviceStat {
    /// How many keys it has tried.
    pub keys: u64,
    /// How many candidates each of its threads tries in a launch.
    pub iters: u64,
    /// Whether it is still looking for the best number of candidates.
    pub calibrating: bool,
}

/// The state of a run.
pub struct Shared {
    /// The prefixes, the required ones first.
    pub prefixes: Vec<String>,
    /// Whether a prefix has to be found for the run to end.
    pub required: Vec<bool>,
    /// How many matches to collect for each prefix.
    pub target: u64,
    /// How many matches of each prefix were found.
    pub found: Vec<u64>,
    /// The devices.
    pub devices: Vec<DeviceStat>,
    /// How many matches were dropped, so that no two saved keys come from one launch.
    pub dropped_correlated: u64,
    /// Whether the run is over.
    pub done: bool,
}

/// The keys that devices tried, all together.
pub open spec fn keys_of(devices: Seq<DeviceStat>, n: int) -> int
    decreases n,
{
    if n <= 0 {
        0
    } else {
        keys_of(devices, n - 1) + devices[n - 1].keys
    }
}

proof fn lemma_keys_grow(devices: Seq<DeviceStat>, m: int, n: int)
    requires
        0 <= m <= n <= devices.len(),
    ensures
        0 <= keys_of(devices, m) <= keys_of(devices, n),
    decreases n,
{
    if n > 0 {
        if m < n {
            lemma_keys_grow(devices, m, n - 1);
        } else {
            lemma_keys_grow(devices, n - 1, n - 1);
        }
    }
}

impl Shared {
    /// Every prefix has its mark and its counter.
    pub open spec fn wf(self) -> bool {
        &&& self.required@.len() == self.prefixes@.len()
        &&& self.found@.len() == self.prefixes@.len()
    }

    /// A prefix has as many matches as asked for.
    pub open spec fn enough(self, i: int) -> bool {
        self.found@[i] >= self.target
    }

    /// Every required prefix has as many matches as asked for.
    pub open spec fn complete(self) -> bool {
        forall|i: int|
            0 <= i < self.prefixes@.len() && #[trigger] self.required@[i] ==> self.enough(i)
    }

    /// The state of a run before anything is found: the first `n_required` prefixes are required.
    pub fn new(prefixes: Vec<String>, n_required: usize, target: u64,
        n_devices: usize) -> (r: Shared)
        ensures
            r.wf(),
            r.prefixes@ == prefixes@,
            forall|i: int|
                0 <= i < prefixes@.len() ==> #[trigger] r.required@[i] == (i < n_required),
            forall|i: int| 0 <= i < prefixes@.len() ==> #[trigger] r.found@[i] == 0,
            r.target == target,
            r.devices@.len() == n_devices,
            forall|i: int|
                0 <= i < n_devices ==> #[trigger] r.devices@[i] == (DeviceStat {
                    keys: 0,
                    iters: 0,
                    calibrating: true,
                }),
            r.dropped_correlated == 0,
            !r.done,
    {
        let mut required: Vec<bool> = Vec::new();
        let mut found: Vec<u64> = Vec::new();
        let n: usize = prefixes.len();
        let mut i: usize = 0;
        while i < n
            invariant
                i <= n,
                required@.len() == i,
                found@.len() == i,
                forall|k: int| 0 <= k < i ==> #[trigger] required@[k] == (k < n_required),
                forall|k: int| 0 <= k < i ==> #[trigger] found@[k] == 0,
            decreases n - i,
        {
            required.push(i < n_required);
            found.push(0);
            i += 1;
        }
        let mut devices: Vec<DeviceStat> = Vec::new();
        let mut i: usize = 0;
        while i < n_devices
            invariant
                i <= n_devices,
                devices@.len() == i,
                forall|k: int|
                    0 <= k < i ==> #[trigger] devices@[k] == (DeviceStat {
                        keys: 0,
                        iters: 0,
                        calibrating: true,
                    }),
            decreases n_devices - i,
        {
            devices.push(DeviceStat { keys: 0, iters: 0, calibrating: true });
            i += 1;
        }
        Shared { prefixes, required, target, found, devices, dropped_correlated: 0, done: false }
    }

    /// The keys that all devices tried.
    pub fn total_keys(&self) -> (r: u64)
        requires
            keys_of(self.devices@, self.devices@.len() as int) <= u64::MAX,
        ensures
            r == keys_of(self.devices@, self.devices@.len() as int),
            r == self.devices@.fold_left(0int, |sum: int, d: DeviceStat| sum + d.keys),
    {
        let mut sum: u64 = 0;
        let mut i: usize = 0;
        while i < self.devices.len()
            invariant
                i <= self.devices@.len(),
                sum == keys_of(self.devices@, i as int),
                keys_of(self.devices@, self.devices@.len() as int) <= u64::MAX,
            decreases self.devices@.len() - i,
        {
            proof {
                lemma_keys_grow(self.devices@, i + 1, self.devices@.len() as int);
            }
            sum = sum + self.devices[i].keys;
            i += 1;
        }
        proof {
            laws::run::lemma_keys(self.devices@);
        }
        sum
    }

    /// Whether a prefix has as many matches as asked for.
    pub fn satisfied(&self, i: usize) -> (r: bool)
        requires
            self.wf(),
            i < self.prefixes@.len(),
        ensures
            r == self.enough(i as int),
            r == (self.found@[i as int] >= self.target),
    {
        self.found[i] >= self.target
    }

    /// Whether every required prefix has as many matches as asked for.
    pub fn required_satisfied(&self) -> (r: bool)
        requires
            self.wf(),
        ensures
            r == self.complete(),
            r <==> forall|i: int|
                0 <= i < self.prefixes@.len() && #[trigger] self.required@[i] ==> self.found@[i]
                    >= self.target,
    {
        let mut i: usize = 0;
        while i < self.prefixes.len()
            invariant
                self.wf(),
                i <= self.prefixes@.len(),
                forall|k: int| 0 <= k < i && #[trigger] self.required@[k] ==> self.enough(k),
            decreases self.prefixes@.len() - i,
        {
            if self.required[i] && !self.satisfied(i) {
                return false;
            }
            i += 1;
        }
        true
    }
}

/// Bonus prefixes never keep a run alive: with every required prefix found, it is over whatever
/// the others have.
pub proof fn lemma_bonus_never_gates(a: Shared, b: Shared)
    requires
        a.wf(),
        b.wf(),
        b.prefixes@.len() == a.prefixes@.len(),
        b.required@ == a.required@,
        b.target == a.target,
        forall|i: int|
            0 <= i < a.prefixes@.len() && #[trigger] a.required@[i] ==> b.found@[i] == a.found@[i],
    ensures
        a.complete() == b.complete(),
{
    if a.complete() {
        assert forall|i: int| 0 <= i < b.prefixes@.len()
            && #[trigger] b.required@[i] implies b.enough(
            i,
        ) by {
            assert(a.required@[i]);
            assert(a.enough(i));
        }
    }
    if b.complete() {
        assert forall|i: int| 0 <= i < a.prefixes@.len()
            && #[trigger] a.required@[i] implies a.enough(
            i,
        ) by {
            assert(b.required@[i]);
            assert(b.enough(i));
        }
    }
}

/// How many matches of a prefix the slots hold.
pub open spec fn stored(o: BytePrefixOwned) -> nat {
    if o.found < OUT_SLOTS {
        o.found as nat
    } else {
        OUT_SLOTS as nat
    }
}

/// The matches that the first `n` prefixes hold, each with the index of its prefix.
pub open spec fn matches_of(ps: Seq<BytePrefixOwned>, n: int) -> Seq<(int, Seq<u8>)>
    decreases n,
{
    if n <= 0 {
        Seq::empty()
    } else {
        matches_of(ps, n - 1) + Seq::new(
            stored(ps[n - 1]),
            |k: int| (n - 1, ps[n - 1].out@.subrange(32 * k, 32 * k + 32)),
        )
    }
}

/// The matches that the first `n` prefixes claimed.
pub open spec fn claimed_of(ps: Seq<BytePrefixOwned>, n: int) -> int
    decreases n,
{
    if n <= 0 {
        0
    } else {
        claimed_of(ps, n - 1) + ps[n - 1].found
    }
}

/// A prefix whose matches were taken.
pub open spec fn drained(a: BytePrefixOwned, b: BytePrefixOwned) -> bool {
    &&& b.found == 0
    &&& b.byte_prefix@ == a.byte_prefix@
    &&& b.last_byte_idx == a.last_byte_idx
    &&& b.last_byte_mask == a.last_byte_mask
    &&& b.out@ == a.out@
}

/// A match as plain bytes.
pub open spec fn plain(m: (usize, [u8; 32])) -> (int, Seq<u8>) {
    (m.0 as int, m.1@)
}

/// No more matches are stored than claimed.
pub proof fn lemma_stored_claimed(ps: Seq<BytePrefixOwned>, n: int)
    ensures
        matches_of(ps, n).len() <= claimed_of(ps, n),
        matches_of(ps, n).len() == 0 <==> claimed_of(ps, n) == 0,
        n >= 0 ==> claimed_of(ps, n) <= n * 0xffffffff,
    decreases n,
{
    if n > 0 {
        lemma_stored_claimed(ps, n - 1);
    }
}

/// Takes the matches of all prefixes, and counts what was claimed.
pub fn collect_matches(prefixes: &mut Vec<BytePrefixOwned>) -> (r: (Vec<(usize, [u8; 32])>, u64))
    requires
        old(prefixes)@.len() <= 0x100000000,
        forall|q: int|
            0 <= q < old(prefixes)@.len() ==> (#[trigger] old(prefixes)@[q]).out@.len() == 32
                * OUT_SLOTS,
    ensures
        r.0@.map_values(|m: (usize, [u8; 32])| plain(m)) == matches_of(
            old(prefixes)@,
            old(prefixes)@.len() as int,
        ),
        r.1 == claimed_of(old(prefixes)@, old(prefixes)@.len() as int),
        r.1 == old(prefixes)@.fold_left(0int, |sum: int, p: BytePrefixOwned| sum + p.found),
        r.0@.len() > 0 <==> exists|q: int|
            0 <= q < old(prefixes)@.len() && (#[trigger] old(prefixes)@[q]).found > 0,
        final(prefixes)@.len() == old(prefixes)@.len(),
        forall|q: int|
            0 <= q < old(prefixes)@.len() ==> drained(
                old(prefixes)@[q],
                #[trigger] final(prefixes)@[q],
            ),
{
    let ghost before = prefixes@;
    let ghost view = |m: (usize, [u8; 32])| plain(m);
    let mut candidates: Vec<(usize, [u8; 32])> = Vec::new();
    let mut claimed_total: u64 = 0;
    let n: usize = prefixes.len();
    let mut q: usize = 0;
    assert(candidates@.map_values(view) =~= matches_of(before, 0));
    while q < n
        invariant
            q <= n,
            n == before.len(),
            n <= 0x100000000,
            prefixes@.len() == before.len(),
            view == (|m: (usize, [u8; 32])| plain(m)),
            forall|k: int| 0 <= k < before.len() ==> (#[trigger] before[k]).out@.len() == 32
                * OUT_SLOTS,
            forall|k: int| q <= k < n ==> #[trigger] prefixes@[k] == before[k],
            forall|k: int| 0 <= k < q ==> drained(before[k], #[trigger] prefixes@[k]),
            candidates@.map_values(view) == matches_of(before, q as int),
            claimed_total == claimed_of(before, q as int),
        decreases n - q,
    {
        proof {
            lemma_stored_claimed(before, q as int);
        }
        let ghost o = before[q as int];
        let (results, claimed) = prefixes[q].drain();
        claimed_total = claimed_total + claimed as u64;
        let ghost start = candidates@;
        let mut k: usize = 0;
        assert(candidates@ =~= start + Seq::new(0, |i: int| (q, results@[i])));
        while k < results.len()
            invariant
                k <= results@.len(),
                candidates@ == start + Seq::new(k as nat, |i: int| (q, results@[i])),
            decreases results@.len() - k,
        {
            candidates.push((q, results[k]));
            k += 1;
            assert(candidates@ =~= start + Seq::new(k as nat, |i: int| (q, results@[i])));
        }
        proof {
            let added = Seq::new(
                stored(o),
                |k: int| (q as int, o.out@.subrange(32 * k, 32 * k + 32)),
            );
            assert(candidates@.map_values(view) =~= start.map_values(view) + added);
            assert(matches_of(before, q + 1) == matches_of(before, q as int) + added);
        }
        q += 1;
    }
    proof {
        assert(candidates@.map_values(|m: (usize, [u8; 32])| plain(m)) =~= candidates@.map_values(
            view,
        ));
        laws::harvest::lemma_claimed(before);
        laws::harvest::lemma_some_match(before, before.len() as int);
        assert(candidates@.len() == candidates@.map_values(view).len());
    }
    (candidates, claimed_total)
}

/// What one launch yields: at most one match.
pub struct Harvest {
    /// The match that is kept, with the index of its prefix.
    pub kept: Option<(usize, [u8; 32])>,
    /// How many more were claimed.
    pub dropped: u64,
}

/// Keeps the picked match and counts the others.
///
/// All candidates of a launch are close to one random number, so whoever holds the key of one
/// match can find those of the others. Keeping one match of each launch makes the saved keys
/// independent.
pub fn keep_one(candidates: &Vec<(usize, [u8; 32])>, claimed: u64, pick: usize) -> (r: Harvest)
    requires
        candidates@.len() > 0 ==> pick < candidates@.len() && claimed > 0,
    ensures
        candidates@.len() == 0 ==> r.kept is None && r.dropped == 0,
        candidates@.len() > 0 ==> r.kept == Some(candidates@[pick as int]) && r.dropped == claimed
            - 1,
{
    if candidates.len() == 0 {
        return Harvest { kept: None, dropped: 0 };
    }
    Harvest { kept: Some(candidates[pick]), dropped: claimed - 1 }
}

/// Takes the matches of a launch and keeps one of them, picked at random.
pub fn harvest(prefixes: &mut Vec<BytePrefixOwned>) -> (r: Harvest)
    requires
        old(prefixes)@.len() <= 0x100000000,
        forall|q: int|
            0 <= q < old(prefixes)@.len() ==> (#[trigger] old(prefixes)@[q]).out@.len() == 32
                * OUT_SLOTS,
    ensures
        ({
            let n = old(prefixes)@.len() as int;
            let all = matches_of(old(prefixes)@, n);
            &&& r.kept is None <==> all.len() == 0
            &&& r.kept is None ==> r.dropped == 0
            &&& r.kept matches Some(m) ==> all.contains(plain(m)) && r.dropped == claimed_of(
                old(prefixes)@,
                n,
            ) - 1
        }),
        r.kept is Some <==> exists|q: int|
            0 <= q < old(prefixes)@.len() && (#[trigger] old(prefixes)@[q]).found > 0,
        r.kept matches Some(m) ==> m.0 < old(prefixes)@.len() && exists|k: int|
            0 <= k < 64 && k < old(prefixes)@[m.0 as int].found && m.1@ == #[trigger] old(
                prefixes,
            )@[m.0 as int].out@.subrange(32 * k, 32 * k + 32),
        r.dropped + (if r.kept is Some {
            1int
        } else {
            0
        }) == old(prefixes)@.fold_left(0int, |sum: int, p: BytePrefixOwned| sum + p.found),
        final(prefixes)@.len() == old(prefixes)@.len(),
        forall|q: int|
            0 <= q < old(prefixes)@.len() ==> drained(
                old(prefixes)@[q],
                #[trigger] final(prefixes)@[q],
            ),
{
    let ghost before = prefixes@;
    let (candidates, claimed) = collect_matches(prefixes);
    proof {
        lemma_stored_claimed(before, before.len() as int);
    }
    let ghost all = candidates@.map_values(|m: (usize, [u8; 32])| plain(m));
    if candidates.len() == 0 {
        proof {
            laws::harvest::lemma_harvest(before, None, 0);
        }
        return keep_one(&candidates, claimed, 0);
    }
    let pick: usize = random_below(candidates.len());
    proof {
        assert(all[pick as int] == plain(candidates@[pick as int]));
        let m = plain(candidates@[pick as int]);
        laws::harvest::lemma_harvest(before, Some(m), claimed - 1);
        let k = choose|k: int|
            0 <= k < 64 && k < before[m.0].found && m.1 == #[trigger] before[m.0].out@.subrange(
                32 * k,
                32 * k + 32,
            );
        assert(candidates@[pick as int].1@ == before[candidates@[pick as int].0 as int].out@.subrange(
            32 * k,
            32 * k + 32,
        ));
    }
    keep_one(&candidates, claimed, pick)
}

/// Nothing is dropped in silence: what is kept and what is counted as dropped add up to what was
/// claimed.
pub proof fn lemma_harvest_accounts(ps: Seq<BytePrefixOwned>, kept: bool, dropped: int)
    requires
        kept == (matches_of(ps, ps.len() as int).len() > 0),
        dropped == if kept {
            claimed_of(ps, ps.len() as int) - 1
        } else {
            0
        },
    ensures
        dropped + (if kept {
            1int
        } else {
            0
        }) == claimed_of(ps, ps.len() as int),
        dropped >= 0,
{
    lemma_stored_claimed(ps, ps.len() as int);
}

/// What becomes of a match.
pub enum Verdict {
    /// Its prefix has enough matches already.
    Enough,
    /// The address does not start with the prefix, so the match is thrown away.
    Discard {
        /// What is reported.
        message: String,
        /// The key file that is not written.
        file: Vec<u8>,
    },
    /// The key is written to a file with the name of the address.
    Write {
        /// The address.
        onion: String,
        /// The contents of the file.
        file: Vec<u8>,
    },
}

/// What is reported of a match that does not stand up.
pub open spec fn discard_text(prefix: Seq<char>, onion: Seq<char>) -> Seq<char> {
    "⚠ DISCARDED unverified match for \""@ + prefix + "\" (re-derived "@ + onion
        + ") — kernel bug?"@
}

/// The verdict on a derived key: the address has to start with the prefix.
pub open spec fn judged(prefix: Seq<char>, onion: Seq<char>, contents: Seq<u8>,
    r: Verdict) -> bool {
    if prefix.is_prefix_of(onion) {
        r matches Verdict::Write { onion: name, file } && name@ == onion && file@ == contents
    } else {
        r matches Verdict::Discard { message, file } && message@ == discard_text(prefix, onion)
            && file@ == contents
    }
}

/// The verdict on a derived key.
///
/// The address that was derived again has to start with the prefix. If it does not, the kernel
/// was wrong, and the match is thrown away instead of writing a key that is none.
pub fn judge_key(prefix: &String, key: DerivedKey) -> (r: Verdict)
    ensures
        judged(prefix@, key.onion@, key.file@, r),
        r !is Enough,
        r is Write <==> prefix@.len() <= key.onion@.len() && forall|i: int|
            0 <= i < prefix@.len() ==> #[trigger] key.onion@[i] == prefix@[i],
        r matches Verdict::Write { onion, file } ==> onion@ == key.onion@ && file@ == key.file@,
        r matches Verdict::Discard { message, file } ==> file@ == key.file@,
{
    proof {
        laws::verdict::lemma_starts(prefix@, key.onion@);
    }
    let onion = chars_of(key.onion.as_str());
    let p = chars_of(prefix.as_str());
    if !starts_with(&onion, &p) {
        let mut m: Vec<char> = Vec::new();
        push_str(&mut m, "⚠ DISCARDED unverified match for \"");
        push_str(&mut m, prefix.as_str());
        push_str(&mut m, "\" (re-derived ");
        push_str(&mut m, key.onion.as_str());
        push_str(&mut m, ") — kernel bug?");
        assert(m@ =~= discard_text(prefix@, key.onion@));
        return Verdict::Discard { message: string_of(m), file: key.file };
    }
    Verdict::Write { onion: key.onion, file: key.file }
}

/// What becomes of what a kernel recorded for a prefix. Random bytes for the key file are drawn
/// into `nonce`, which stays with the caller to be wiped.
pub fn judge(
    shared: &Shared,
    idx: usize,
    algo: Algo,
    out: &[u8; 32],
    nonce: &mut [u8; 32],
) -> (r: Verdict)
    requires
        shared.wf(),
        idx < shared.prefixes@.len(),
    ensures
        shared.enough(idx as int) ==> r is Enough,
        shared.enough(idx as int) || algo == Algo::Seed ==> *final(nonce) == *old(nonce),
        !shared.enough(idx as int) ==> judged(
            shared.prefixes@[idx as int]@,
            keys::derived_address(algo, out@),
            keys::FILE_PREFIX@ + keys::derived_body(algo, out@, final(nonce)@),
            r,
        ),
        r matches Verdict::Write { onion, file } ==> onion@.len() == 62 && file@.len() == 96,
        r is Enough <==> shared.found@[idx as int] >= shared.target,
        r is Write <==> shared.found@[idx as int] < shared.target
            && shared.prefixes@[idx as int]@.len() <= 62 && forall|i: int|
            0 <= i < shared.prefixes@[idx as int]@.len() ==> #[trigger] keys::derived_address(
                algo,
                out@,
            )[i] == shared.prefixes@[idx as int]@[i],
{
    if shared.satisfied(idx) {
        return Verdict::Enough;
    }
    let key = derive_key(algo, out, nonce);
    judge_key(&shared.prefixes[idx], key)
}

/// What is reported of a saved key.
pub open spec fn saved_text(
    onion: Seq<char>,
    prefix: Seq<char>,
    required: bool,
    n: nat,
    target: nat,
) -> Seq<char> {
    "✔ "@ + onion + "  matched \""@ + prefix + "\""@ + (if required {
        ""@
    } else {
        " (bonus)"@
    }) + "  ["@ + text::decimal(n) + "/"@ + text::decimal(target) + "]"@
}

/// What is reported when a prefix has enough matches.
pub open spec fn satisfied_text(prefix: Seq<char>) -> Seq<char> {
    "★ \""@ + prefix + "\" satisfied"@
}

/// Counts a saved key, and says what to report.
pub fn count_saved(shared: &mut Shared, idx: usize, onion: &str) -> (r: Vec<String>)
    requires
        old(shared).wf(),
        idx < old(shared).prefixes@.len(),
        old(shared).found@[idx as int] < u64::MAX,
    ensures
        final(shared).wf(),
        final(shared).found@ == old(shared).found@.update(
            idx as int,
            (old(shared).found@[idx as int] + 1) as u64,
        ),
        final(shared).prefixes == old(shared).prefixes,
        final(shared).required == old(shared).required,
        final(shared).target == old(shared).target,
        final(shared).devices == old(shared).devices,
        final(shared).dropped_correlated == old(shared).dropped_correlated,
        final(shared).done == old(shared).done,
        r@.len() == (if final(shared).enough(idx as int) {
            2int
        } else {
            1
        }),
        r@.len() == (if old(shared).found@[idx as int] + 1 >= old(shared).target {
            2int
        } else {
            1
        }),
        r@[0]@ == saved_text(
            onion@,
            old(shared).prefixes@[idx as int]@,
            old(shared).required@[idx as int],
            (old(shared).found@[idx as int] + 1) as nat,
            old(shared).target as nat,
        ),
        r@.len() == 2 ==> r@[1]@ == satisfied_text(old(shared).prefixes@[idx as int]@),
{
    let n: u64 = shared.found[idx] + 1;
    shared.found[idx] = n;
    let mut m: Vec<char> = Vec::new();
    push_str(&mut m, "✔ ");
    push_str(&mut m, onion);
    push_str(&mut m, "  matched \"");
    push_str(&mut m, shared.prefixes[idx].as_str());
    push_str(&mut m, "\"");
    if shared.required[idx] {
        push_str(&mut m, "");
    } else {
        push_str(&mut m, " (bonus)");
    }
    push_str(&mut m, "  [");
    push_decimal(&mut m, n);
    push_str(&mut m, "/");
    push_decimal(&mut m, shared.target);
    push_str(&mut m, "]");
    assert(m@ =~= saved_text(
        onion@,
        shared.prefixes@[idx as int]@,
        shared.required@[idx as int],
        n as nat,
        shared.target as nat,
    ));
    let mut r: Vec<String> = Vec::new();
    r.push(string_of(m));
    if n >= shared.target {
        let mut m: Vec<char> = Vec::new();
        push_str(&mut m, "★ \"");
        push_str(&mut m, shared.prefixes[idx].as_str());
        push_str(&mut m, "\" satisfied");
        assert(m@ =~= satisfied_text(shared.prefixes@[idx as int]@));
        r.push(string_of(m));
    }
    r
}

/// No prefix gets more matches than asked for: one with enough of them is not counted any more, and
/// a match counts for one.
pub proof fn lemma_count_stays_within(a: Shared, b: Shared, idx: int)
    requires
        a.wf(),
        0 <= idx < a.prefixes@.len(),
        forall|i: int| 0 <= i < a.prefixes@.len() ==> #[trigger] a.found@[i] <= a.target,
        !a.enough(idx),
        b.target == a.target,
        b.found@ == a.found@.update(idx, (a.found@[idx] + 1) as u64),
    ensures
        forall|i: int| 0 <= i < a.prefixes@.len() ==> #[trigger] b.found@[i] <= b.target,
{
}

/// How many times the work of a practical prefix a longer one is, as far as 64 bits reach.
pub open spec fn work_factor(len: int) -> nat {
    let bits = 5 * (len - IMPRACTICAL_PREFIX_CHARS + 1);
    pow2(
        if bits < 63 {
            bits as nat
        } else {
            63
        },
    )
}

/// The warning of a prefix that may never be found.
pub open spec fn warning_text(len: nat) -> Seq<char> {
    "warning: "@ + text::decimal(len) + " characters is "@ + text::decimal(work_factor(len as int))
        + " times the work of "@ + text::decimal((IMPRACTICAL_PREFIX_CHARS - 1) as nat)
        + " — this run may never finish"@
}

/// The note that a prefix was changed.
pub open spec fn note_text(p: Seq<char>) -> Seq<char> {
    "note: searching for \""@ + p + "\" (prefixes are lowercase)"@
}

/// The error of a prefix that is refused.
pub open spec fn error_text(raw: Seq<char>, refusal: Seq<char>) -> Seq<char> {
    "error: prefix \""@ + raw + "\": "@ + refusal
}

/// What is said of an accepted prefix.
pub open spec fn remarks(raw: Seq<char>) -> Seq<Seq<char>> {
    let p = onion::normal(raw);
    (if p.len() >= IMPRACTICAL_PREFIX_CHARS {
        seq![warning_text(p.len())]
    } else {
        Seq::empty()
    }) + (if p != raw {
        seq![note_text(p)]
    } else {
        Seq::empty()
    })
}

/// What is said of the first `n` prefixes.
pub open spec fn remarks_of(raws: Seq<String>, n: int) -> Seq<Seq<char>>
    decreases n,
{
    if n <= 0 {
        Seq::empty()
    } else {
        remarks_of(raws, n - 1) + remarks(raws[n - 1]@)
    }
}

/// The warning of a prefix that may never be found.
fn warning(len: u64) -> (r: String)
    requires
        IMPRACTICAL_PREFIX_CHARS <= len <= 0x1000,
    ensures
        r@ == warning_text(len as nat),
{
    let bits: u64 = 5 * (len - IMPRACTICAL_PREFIX_CHARS as u64 + 1);
    let shift: u64 = if bits < 63 {
        bits
    } else {
        63
    };
    proof {
        lemma2_to64();
        lemma2_to64_rest();
        lemma_pow2_strictly_increases(shift as nat, 64);
        lemma_u64_shl_is_mul(1, shift);
    }
    let factor: u64 = 1u64 << shift;
    let mut m: Vec<char> = Vec::new();
    push_str(&mut m, "warning: ");
    push_decimal(&mut m, len);
    push_str(&mut m, " characters is ");
    push_decimal(&mut m, factor);
    push_str(&mut m, " times the work of ");
    push_decimal(&mut m, IMPRACTICAL_PREFIX_CHARS as u64 - 1);
    push_str(&mut m, " — this run may never finish");
    assert(m@ =~= warning_text(len as nat));
    string_of(m)
}

/// The views of strings.
pub open spec fn texts(v: Seq<String>) -> Seq<Seq<char>> {
    v.map_values(|s: String| s@)
}

/// Adds what is said of an accepted prefix.
fn push_remarks(notes: &mut Vec<String>, raw: &String, p: &String)
    requires
        p@ == onion::normal(raw@),
        onion::valid_prefix(p@),
    ensures
        texts(final(notes)@) == texts(old(notes)@) + remarks(raw@),
{
    let ghost before = texts(notes@);
    let len: usize = chars_of(p.as_str()).len();
    if len >= IMPRACTICAL_PREFIX_CHARS {
        notes.push(warning(len as u64));
    }
    let ghost first = if p@.len() >= IMPRACTICAL_PREFIX_CHARS {
        seq![warning_text(p@.len())]
    } else {
        Seq::empty()
    };
    assert(texts(notes@) =~= before + first);
    if *p != *raw {
        let mut m: Vec<char> = Vec::new();
        push_str(&mut m, "note: searching for \"");
        push_str(&mut m, p.as_str());
        push_str(&mut m, "\" (prefixes are lowercase)");
        assert(m@ =~= note_text(p@));
        notes.push(string_of(m));
    }
    assert(texts(notes@) =~= before + remarks(raw@));
}

/// The prefixes that a run is started with.
pub struct Intake {
    /// What is said of the prefixes up to the first one that is refused.
    pub notes: Vec<String>,
    /// The prefixes to search for, or why one of them is refused.
    pub outcome: Result<Vec<String>, String>,
}

/// The first `n` prefixes are accepted.
pub open spec fn accepted(raws: Seq<String>, n: int) -> bool {
    forall|i: int| 0 <= i < n ==> onion::valid_prefix(onion::normal(#[trigger] raws[i]@))
}

/// Normalizes and checks the prefixes of a run, in order, up to the first one that is refused.
pub fn accept_prefixes(raws: &Vec<String>) -> (r: Intake)
    ensures
        r.outcome is Ok <==> accepted(raws@, raws@.len() as int),
        r.outcome matches Ok(ps) ==> {
            &&& texts(ps@) == Seq::new(raws@.len(), |i: int| onion::normal(raws@[i]@))
            &&& texts(r.notes@) == remarks_of(raws@, raws@.len() as int)
        },
        r.outcome matches Err(e) ==> exists|j: int|
            0 <= j < raws@.len() && accepted(raws@, j) && !onion::valid_prefix(
                onion::normal(#[trigger] raws@[j]@),
            ) && e@ == error_text(raws@[j]@, onion::refusal(onion::normal(raws@[j]@))) && texts(
                r.notes@,
            ) == remarks_of(raws@, j),
{
    let mut notes: Vec<String> = Vec::new();
    let mut prefixes: Vec<String> = Vec::new();
    let mut i: usize = 0;
    assert(texts(prefixes@) =~= Seq::new(0, |k: int| onion::normal(raws@[k]@)));
    assert(texts(notes@) =~= remarks_of(raws@, 0));
    while i < raws.len()
        invariant
            i <= raws@.len(),
            accepted(raws@, i as int),
            texts(prefixes@) == Seq::new(i as nat, |k: int| onion::normal(raws@[k]@)),
            texts(notes@) == remarks_of(raws@, i as int),
        decreases raws@.len() - i,
    {
        match normalize_prefix(raws[i].as_str()) {
            Ok(p) => {
                push_remarks(&mut notes, &raws[i], &p);
                let ghost before = texts(prefixes@);
                prefixes.push(p);
                assert(texts(prefixes@) =~= before.push(p@));
                assert(texts(prefixes@) =~= Seq::new(
                    (i + 1) as nat,
                    |k: int| onion::normal(raws@[k]@),
                ));
            },
            Err(e) => {
                let mut m: Vec<char> = Vec::new();
                push_str(&mut m, "error: prefix \"");
                push_str(&mut m, raws[i].as_str());
                push_str(&mut m, "\": ");
                push_str(&mut m, e.as_str());
                assert(m@ =~= error_text(raws@[i as int]@, e@));
                return Intake { notes, outcome: Err(string_of(m)) };
            },
        }
        i += 1;
    }
    Intake { notes, outcome: Ok(prefixes) }
}

} // verus!
