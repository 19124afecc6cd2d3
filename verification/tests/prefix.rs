use rand::rngs::StdRng;
use rand::{Rng, RngCore, SeedableRng};
use tor_v3_vanity::kernel::OUT_SLOTS;
use tor_v3_vanity::onion::pubkey_to_onion;
use tor_v3_vanity::prefix::{BytePrefixOwned, PrefixError};

fn owned(s: &str) -> BytePrefixOwned {
    match BytePrefixOwned::new(s) {
        Ok(p) => p,
        Err(PrefixError::NotBase32 { prefix }) => panic!("{} was refused", prefix),
    }
}

#[test]
fn bits_of_prefixes() {
    let p = owned("a");
    assert_eq!((p.byte_prefix.clone(), p.last_byte_idx, p.last_byte_mask), (vec![0], 0, 0xf8));
    let p = owned("7");
    assert_eq!((p.byte_prefix.clone(), p.last_byte_idx, p.last_byte_mask), (vec![0xf8], 0, 0xf8));
    let p = owned("77");
    assert_eq!((p.byte_prefix.clone(), p.last_byte_idx, p.last_byte_mask), (vec![0xff, 0xc0], 1, 0xc0));
    let p = owned("abcdefgh");
    assert_eq!(p.last_byte_idx, 5);
    assert_eq!(p.last_byte_mask, 0);
    assert_eq!(&p.byte_prefix[..5], &[0x00, 0x44, 0x32, 0x14, 0xc7]);
    let masks: Vec<u8> = (1..=8).map(|n| owned(&"b".repeat(n)).last_byte_mask).collect();
    assert_eq!(masks, vec![0xf8, 0xc0, 0xfe, 0xf0, 0x80, 0xfc, 0xe0, 0]);
    let p = owned(&"c".repeat(51));
    assert_eq!((p.last_byte_idx, p.last_byte_mask), (31, 0xfe));
}

#[test]
fn bits_are_those_that_decoding_gives() {
    for s in ["shaonsen", "shaonsenllc", "x", "abc234", "qqqqqqq"] {
        let decoded =
            base32::decode(base32::Alphabet::RFC4648 { padding: false }, &format!("{}aa", s)).unwrap();
        let p = owned(s);
        assert_eq!(p.byte_prefix, decoded);
        assert_eq!(p.out, vec![0u8; OUT_SLOTS as usize * 32]);
        assert_eq!(p.found, 0);
    }
    // letters of either case stand for the same bits
    assert_eq!(owned("ABC").byte_prefix, owned("abc").byte_prefix);
}

#[test]
fn what_is_not_base32_is_refused() {
    for s in ["ab1", "a b", "é", "0", "a!"] {
        match BytePrefixOwned::new(s) {
            Ok(_) => panic!("{} was accepted", s),
            Err(PrefixError::NotBase32 { prefix }) => assert_eq!(prefix, s),
        }
    }
}

#[test]
fn kernel_sees_the_same_prefix() {
    let mut p = owned("hello");
    p.out[5] = 9;
    p.found = 3;
    let b = p.as_byte_prefix();
    assert_eq!(b.byte_prefix, p.byte_prefix);
    assert_eq!(b.last_byte_idx, p.last_byte_idx);
    assert_eq!(b.last_byte_mask, p.last_byte_mask);
    assert_eq!(b.out, p.out);
    assert_eq!(b.found, 3);
}

#[test]
fn fits_exactly_when_the_address_starts_with_it() {
    let mut rng = StdRng::seed_from_u64(9);
    for round in 0..400usize {
        let mut key = [0u8; 32];
        rng.fill_bytes(&mut key);
        let address = pubkey_to_onion(&key);
        let len = 1 + round % 51;
        let right = &address[..len];
        assert!(owned(right).as_byte_prefix().matches(&key));
        // another last character
        let mut wrong = right.to_string();
        let last = wrong.pop().unwrap();
        wrong.push(if last == 'a' { 'b' } else { 'a' });
        assert!(!owned(&wrong).as_byte_prefix().matches(&key));
        // a key that differs in one of the bits, or in one that does not count
        let bit = rng.gen_range(0..256usize);
        let mut other = key;
        other[bit / 8] ^= 0x80 >> (bit % 8);
        let starts = pubkey_to_onion(&other).starts_with(right);
        assert_eq!(owned(right).as_byte_prefix().matches(&other), starts);
        assert_eq!(starts, bit >= 5 * len);
    }
}

#[test]
fn draining_takes_and_resets() {
    let mut p = owned("abc");
    let (results, claimed) = p.drain();
    assert!(results.is_empty());
    assert_eq!(claimed, 0);

    for (i, b) in p.out.iter_mut().enumerate() {
        *b = (i % 251) as u8;
    }
    p.found = 2;
    let (results, claimed) = p.drain();
    assert_eq!(claimed, 2);
    assert_eq!(results.len(), 2);
    assert_eq!(&results[0][..], &p.out[..32]);
    assert_eq!(&results[1][..], &p.out[32..64]);
    assert_eq!(p.found, 0);

    p.found = OUT_SLOTS + 5;
    let (results, claimed) = p.drain();
    assert_eq!(claimed, OUT_SLOTS + 5);
    assert_eq!(results.len(), OUT_SLOTS as usize);
    assert_eq!(&results[OUT_SLOTS as usize - 1][..], &p.out[32 * (OUT_SLOTS as usize - 1)..]);
    assert_eq!(p.drain().1, 0);
}
