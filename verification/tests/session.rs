use tor_v3_vanity::kernel::OUT_SLOTS;
use tor_v3_vanity::keys::{derive_key_with, Algo, DerivedKey, FILE_PREFIX};
use tor_v3_vanity::prefix::{BytePrefixOwned, PrefixError};
use tor_v3_vanity::session::{
    accept_prefixes, collect_matches, count_saved, harvest, judge, judge_key, keep_one, Shared,
    Verdict,
};

fn owned(s: &str) -> BytePrefixOwned {
    match BytePrefixOwned::new(s) {
        Ok(p) => p,
        Err(PrefixError::NotBase32 { prefix }) => panic!("{} was refused", prefix),
    }
}

fn strings(v: &[&str]) -> Vec<String> {
    v.iter().map(|s| s.to_string()).collect()
}

fn shared(prefixes: &[&str], n_required: usize, target: u64) -> Shared {
    Shared::new(strings(prefixes), n_required, target, 2)
}

#[test]
fn new_run_has_found_nothing() {
    let s = shared(&["abc", "def", "xyz"], 2, 3);
    assert_eq!(s.required, vec![true, true, false]);
    assert_eq!(s.found, vec![0, 0, 0]);
    assert_eq!(s.devices.len(), 2);
    assert!(s.devices.iter().all(|d| d.keys == 0 && d.iters == 0 && d.calibrating));
    assert_eq!(s.total_keys(), 0);
    assert!(!s.done);
    assert!(!s.required_satisfied());
}

#[test]
fn keys_add_up() {
    let mut s = shared(&["abc"], 1, 1);
    s.devices[0].keys = 5;
    s.devices[1].keys = u64::MAX - 5;
    assert_eq!(s.total_keys(), u64::MAX);
}

#[test]
fn bonus_prefixes_never_gate() {
    let mut s = shared(&["abc", "def", "xyz"], 2, 2);
    s.found = vec![2, 1, 0];
    assert!(s.satisfied(0));
    assert!(!s.satisfied(1));
    assert!(!s.required_satisfied());
    s.found[2] = 7;
    assert!(!s.required_satisfied());
    s.found = vec![2, 2, 0];
    assert!(s.required_satisfied());
    assert!(!s.satisfied(2));
    // without required prefixes there is nothing to wait for
    assert!(shared(&["abc"], 0, 1).required_satisfied());
}

#[test]
fn one_match_of_a_launch_is_kept() {
    let mut ps = vec![owned("a"), owned("b"), owned("c")];
    ps[0].found = 2;
    ps[0].out[..32].copy_from_slice(&[1; 32]);
    ps[0].out[32..64].copy_from_slice(&[2; 32]);
    ps[2].found = OUT_SLOTS + 4;
    for b in ps[2].out.iter_mut() {
        *b = 3;
    }
    let claimed = 2 + OUT_SLOTS as u64 + 4;
    let h = harvest(&mut ps);
    let kept = h.kept.unwrap();
    assert!(kept == (0, [1; 32]) || kept == (0, [2; 32]) || kept == (2, [3; 32]));
    assert_eq!(h.dropped + 1, claimed);
    assert!(ps.iter().all(|p| p.found == 0));
    let again = harvest(&mut ps);
    assert!(again.kept.is_none());
    assert_eq!(again.dropped, 0);
}

#[test]
fn matches_are_collected_in_order() {
    let mut ps = vec![owned("a"), owned("b")];
    ps[0].found = 1;
    ps[0].out[..32].copy_from_slice(&[4; 32]);
    ps[1].found = 2;
    ps[1].out[..32].copy_from_slice(&[5; 32]);
    ps[1].out[32..64].copy_from_slice(&[6; 32]);
    let (all, claimed) = collect_matches(&mut ps);
    assert_eq!(all, vec![(0, [4; 32]), (1, [5; 32]), (1, [6; 32])]);
    assert_eq!(claimed, 3);
    let h = keep_one(&all, claimed, 2);
    assert_eq!(h.kept, Some((1, [6; 32])));
    assert_eq!(h.dropped, 2);
    let none = keep_one(&Vec::new(), 0, 0);
    assert!(none.kept.is_none());
    assert_eq!(none.dropped, 0);
}

#[test]
fn harvest_picks_among_all() {
    let mut seen = [false; 4];
    for _ in 0..400 {
        let mut ps = vec![owned("a")];
        ps[0].found = 4;
        for i in 0..4 {
            ps[0].out[32 * i] = i as u8;
        }
        seen[harvest(&mut ps).kept.unwrap().1[0] as usize] = true;
    }
    assert_eq!(seen, [true; 4]);
}

#[test]
fn verdict_on_a_match() {
    let out = [7u8; 32];
    let key = derive_key_with(Algo::Incremental, &out, &[0; 32]);
    let good = key.onion[..6].to_string();
    let mut s = shared(&[&good, "zzzzzz"], 1, 1);

    let mut nonce = [0u8; 32];
    match judge(&s, 0, Algo::Incremental, &out, &mut nonce) {
        Verdict::Write { onion, file } => {
            assert_eq!(onion, key.onion);
            assert_eq!(file.len(), 96);
            assert_eq!(&file[..32], &FILE_PREFIX);
            assert_eq!(&file[32..64], &key.file[32..64]);
            assert_eq!(&file[64..], &nonce);
        }
        _ => panic!("a match was not written"),
    }
    match judge(&s, 1, Algo::Incremental, &out, &mut nonce) {
        Verdict::Discard { message, file } => {
            assert_eq!(
                message,
                format!(
                    "⚠ DISCARDED unverified match for \"zzzzzz\" (re-derived {}) — kernel bug?",
                    key.onion
                )
            );
            assert_eq!(file[..64], key.file[..64]);
        }
        _ => panic!("a wrong match was not discarded"),
    }
    // the other algorithm derives another address
    nonce = [5; 32];
    assert!(matches!(judge(&s, 0, Algo::Seed, &out, &mut nonce), Verdict::Discard { .. }));
    s.found[0] = 1;
    assert!(matches!(judge(&s, 0, Algo::Incremental, &out, &mut nonce), Verdict::Enough));
    assert_eq!(nonce, [5; 32]);
}

#[test]
fn verdict_on_a_derived_key() {
    let key = || DerivedKey { onion: "abcdef.onion".to_string(), file: vec![1, 2, 3] };
    match judge_key(&"abc".to_string(), key()) {
        Verdict::Write { onion, file } => {
            assert_eq!(onion, "abcdef.onion");
            assert_eq!(file, vec![1, 2, 3]);
        }
        _ => panic!("not written"),
    }
    assert!(matches!(judge_key(&"abd".to_string(), key()), Verdict::Discard { .. }));
    assert!(matches!(judge_key(&"abcdef.onionx".to_string(), key()), Verdict::Discard { .. }));
}

#[test]
fn saving_counts_and_reports() {
    let mut s = shared(&["abc", "xyz"], 1, 2);
    let r = count_saved(&mut s, 0, "abcd.onion");
    assert_eq!(r, strings(&["✔ abcd.onion  matched \"abc\"  [1/2]"]));
    assert_eq!(s.found, vec![1, 0]);
    let r = count_saved(&mut s, 0, "abce.onion");
    assert_eq!(
        r,
        strings(&["✔ abce.onion  matched \"abc\"  [2/2]", "★ \"abc\" satisfied"])
    );
    assert!(s.required_satisfied());
    let r = count_saved(&mut s, 1, "xyz2.onion");
    assert_eq!(r, strings(&["✔ xyz2.onion  matched \"xyz\" (bonus)  [1/2]"]));
    assert_eq!(s.found, vec![2, 1]);
    assert_eq!(s.prefixes, strings(&["abc", "xyz"]));
}

#[test]
fn prefixes_of_a_run() {
    let intake = accept_prefixes(&strings(&["abc", " DEF", "shaonsenllcxy"]));
    assert_eq!(intake.outcome, Ok(strings(&["abc", "def", "shaonsenllcxy"])));
    assert_eq!(
        intake.notes,
        strings(&[
            "note: searching for \"def\" (prefixes are lowercase)",
            "warning: 13 characters is 32 times the work of 12 — this run may never finish",
        ])
    );
    let none = accept_prefixes(&Vec::new());
    assert_eq!(none.outcome, Ok(Vec::new()));
    assert!(none.notes.is_empty());
}

#[test]
fn warning_of_long_prefixes() {
    for (len, factor) in [(13usize, 1u64 << 5), (14, 1 << 10), (24, 1 << 60), (25, 1 << 63), (51, 1 << 63)] {
        let intake = accept_prefixes(&vec!["k".repeat(len)]);
        assert_eq!(
            intake.notes,
            vec![format!(
                "warning: {} characters is {} times the work of 12 — this run may never finish",
                len, factor
            )]
        );
    }
    assert!(accept_prefixes(&vec!["k".repeat(12)]).notes.is_empty());
}

#[test]
fn refused_prefix_ends_the_intake() {
    let intake = accept_prefixes(&strings(&["Abc", "d0g", "xyz", "!"]));
    assert_eq!(
        intake.outcome,
        Err("error: prefix \"d0g\": '0' is not a base32 character — onion addresses use a-z and 2-7 only (note: 0, 1, 8 and 9 are never valid)".to_string())
    );
    assert_eq!(intake.notes, strings(&["note: searching for \"abc\" (prefixes are lowercase)"]));
}
