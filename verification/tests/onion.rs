use sha3::{Digest, Sha3_256};
use tor_v3_vanity::onion::{
    normalize_prefix, onion_of, pubkey_to_onion, CHECKSUM_WORDS, MAX_PREFIX_CHARS,
};
use tor_v3_vanity::text::{
    ascii_lower, ascii_lowercase, chars_of, decimal_chars, is_white, starts_with, trim,
};

const DUCK: [u8; 32] = [
    29, 4, 161, 208, 74, 51, 140, 110, 106, 233, 112, 191, 171, 238, 73, 4, 157, 103, 2, 37, 9, 132,
    202, 149, 12, 1, 103, 63, 78, 192, 52, 173,
];
const TOR: [u8; 32] = [
    209, 179, 139, 131, 168, 59, 62, 217, 24, 197, 187, 105, 221, 68, 74, 213, 107, 200, 213, 131, 90,
    145, 77, 231, 52, 71, 71, 78, 95, 2, 89, 27,
];

#[test]
fn addresses_of_known_services() {
    assert_eq!(
        pubkey_to_onion(&DUCK),
        "duckduckgogg42xjoc72x3sjasowoarfbgcmvfimaftt6twagswzczad.onion"
    );
    assert_eq!(
        pubkey_to_onion(&TOR),
        "2gzyxa5ihm7nsggfxnu52rck2vv4rvmdlkiu3zzui5du4xyclen53wid.onion"
    );
}

#[test]
fn address_from_digest() {
    let mut hasher = Sha3_256::new();
    hasher.update(b".onion checksum");
    hasher.update(DUCK);
    hasher.update([3u8]);
    let digest: [u8; 32] = hasher.finalize().into();
    assert_eq!(onion_of(&DUCK, &digest), pubkey_to_onion(&DUCK));
    assert_eq!(
        onion_of(&[0; 32], &[0; 32]),
        "aaaaaaaaaaaaaaaaaaaaaaaaaaaaaaaaaaaaaaaaaaaaaaaaaaaaaaad.onion"
    );
    assert_eq!(
        onion_of(&[0xff; 32], &[0xff; 32]),
        "777777777777777777777777777777777777777777777777777777yd.onion"
    );
}

#[test]
fn address_has_its_shape() {
    for seed in 0..50u8 {
        let mut key = [seed; 32];
        key[3] = seed.wrapping_mul(7);
        let a = pubkey_to_onion(&key);
        assert_eq!(a.len(), 62);
        assert!(a.ends_with(".onion"));
        assert!(a[..56].chars().all(|c| c.is_ascii_lowercase() || ('2'..='7').contains(&c)));
    }
}

#[test]
fn checksum_words_spell() {
    assert_eq!(&CHECKSUM_WORDS, b".onion checksum");
}

#[test]
fn normalizing_accepts() {
    assert_eq!(normalize_prefix("abc"), Ok("abc".to_string()));
    assert_eq!(normalize_prefix("  AbC2 \n"), Ok("abc2".to_string()));
    assert_eq!(normalize_prefix("\u{3000}SHAONSEN\u{a0}"), Ok("shaonsen".to_string()));
    let longest = "a".repeat(MAX_PREFIX_CHARS);
    assert_eq!(normalize_prefix(&longest), Ok(longest.clone()));
    assert_eq!(normalize_prefix("234567"), Ok("234567".to_string()));
}

#[test]
fn normalizing_refuses() {
    assert_eq!(normalize_prefix(""), Err("prefix is empty".to_string()));
    assert_eq!(normalize_prefix(" \t "), Err("prefix is empty".to_string()));
    for (raw, bad) in [("ab1", '1'), ("0ab", '0'), ("a8b9", '8'), ("a-b", '-'), ("a b", ' '), ("aé", 'é'), ("ÄB", 'Ä')] {
        assert_eq!(
            normalize_prefix(raw),
            Err(format!(
                "'{}' is not a base32 character — onion addresses use a-z and 2-7 only \
                 (note: 0, 1, 8 and 9 are never valid)",
                bad
            ))
        );
    }
    let long = "b".repeat(52);
    assert_eq!(
        normalize_prefix(&long),
        Err("52 characters is longer than the 51 the public key can constrain, so it could never match".to_string())
    );
    // a bad character counts before the length
    let both = format!("{}9", "b".repeat(60));
    assert!(normalize_prefix(&both).unwrap_err().starts_with("'9' is not"));
}

#[test]
fn normalizing_ignores_case_and_repeats() {
    for raw in ["MyPrefix", "MYPREFIX", "myprefix", " myPREFIX"] {
        let p = normalize_prefix(raw).unwrap();
        assert_eq!(p, "myprefix");
        assert_eq!(normalize_prefix(&p), Ok(p.clone()));
    }
}

#[test]
fn white_space_and_case_of_every_character() {
    for c in '\0'..=char::MAX {
        assert_eq!(is_white(c), c.is_whitespace(), "{:?}", c);
        assert_eq!(ascii_lower(c), c.to_ascii_lowercase());
    }
}

#[test]
fn text_helpers() {
    let s = chars_of(" \u{2003}Foo Bar\u{85}");
    assert_eq!(trim(&s), chars_of("Foo Bar"));
    assert_eq!(trim(&chars_of("  ")), Vec::<char>::new());
    assert_eq!(ascii_lowercase(&chars_of("ÀBc1")), chars_of("Àbc1"));
    for n in [0u64, 9, 10, 101, 4096, u64::MAX] {
        assert_eq!(decimal_chars(n), chars_of(&n.to_string()));
    }
    assert!(starts_with(&chars_of("abcd"), &chars_of("abc")));
    assert!(starts_with(&chars_of("abcd"), &chars_of("")));
    assert!(!starts_with(&chars_of("abcd"), &chars_of("abd")));
    assert!(!starts_with(&chars_of("ab"), &chars_of("abc")));
}
