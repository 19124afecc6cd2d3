//! Runs: what is counted and what is said of it.
use vstd::prelude::*;

use crate::session;
use crate::session::{DeviceStat, Shared};
use crate::text;

verus! {

/// The keys of a run are the sum of those of its devices.
pub proof fn lemma_keys(devices: Seq<DeviceStat>)
    ensures
        session::keys_of(devices, devices.len() as int) == devices.fold_left(
            0int,
            |sum: int, d: DeviceStat| sum + d.keys,
        ),
{
    lemma_keys_first(devices, devices.len() as int);
    assert(devices.take(devices.len() as int) =~= devices);
}

proof fn lemma_keys_first(devices: Seq<DeviceStat>, n: int)
    requires
        0 <= n <= devices.len(),
    ensures
        session::keys_of(devices, n) == devices.take(n).fold_left(
            0int,
            |sum: int, d: DeviceStat| sum + d.keys,
        ),
    decreases n,
{
    if n > 0 {
        lemma_keys_first(devices, n - 1);
        assert(devices.take(n).drop_last() =~= devices.take(n - 1));
    }
}

/// What is said of a saved key.
pub proof fn lemma_saved(onion: Seq<char>, prefix: Seq<char>, required: bool, n: nat, target: nat)
    ensures
        session::saved_text(onion, prefix, required, n, target) == "✔ "@ + onion + "  matched \""@
            + prefix + "\""@ + (if required {
            ""@
        } else {
            " (bonus)"@
        }) + "  ["@ + text::decimal(n) + "/"@ + text::decimal(target) + "]"@,
{
}

/// What is said when a prefix has enough matches.
pub proof fn lemma_satisfied(prefix: Seq<char>)
    ensures
        session::satisfied_text(prefix) == "★ \""@ + prefix + "\" satisfied"@,
{
}

/// The texts of strings, one for each.
pub proof fn lemma_texts(v: Seq<String>)
    ensures
        session::texts(v).len() == v.len(),
        forall|i: int| 0 <= i < v.len() ==> #[trigger] session::texts(v)[i] == v[i]@,
{
}

/// A prefix has enough matches when it has as many as asked for, and a run is complete when every
/// required prefix has enough.
pub proof fn lemma_enough(shared: Shared, i: int)
    ensures
        shared.enough(i) <==> shared.found@[i] >= shared.target,
        shared.complete() <==> forall|k: int|
            0 <= k < shared.prefixes@.len() && #[trigger] shared.required@[k] ==> shared.found@[k]
                >= shared.target,
{
}

} // verus!
