use duino_fleet::search::{pow, MAX_DIFFICULTY};
use sha1::Digest;

fn digest_of(text: &str) -> [u8; 20] {
    let d = sha1::Sha1::digest(text.as_bytes());
    let mut out = [0u8; 20];
    out.copy_from_slice(&d);
    out
}

#[test]
fn nonce_zero_is_found_not_missed() {
    let r = pow("abc".to_string(), digest_of("abc0"), 1);
    assert_eq!(r, Some(0));
}

#[test]
fn planted_nonce_is_found() {
    assert_eq!(pow("abc".to_string(), digest_of("abc57"), 1), Some(57));
    assert_eq!(pow("seed".to_string(), digest_of("seed100"), 1), Some(100));
    assert_eq!(pow("seed".to_string(), digest_of("seed250"), 3), Some(250));
}

#[test]
fn nonce_past_the_space_is_a_miss() {
    assert_eq!(pow("seed".to_string(), digest_of("seed101"), 1), None);
}

#[test]
fn zero_difficulty_tries_only_nonce_zero() {
    assert_eq!(pow("x".to_string(), digest_of("x0"), 0), Some(0));
    assert_eq!(pow("x".to_string(), digest_of("x1"), 0), None);
}

#[test]
fn unmatched_digest_is_a_miss() {
    assert_eq!(pow("abc".to_string(), [0u8; 20], 2), None);
}

#[test]
fn non_ascii_seed_is_hashed_as_utf8() {
    assert_eq!(pow("sé".to_string(), digest_of("sé42"), 1), Some(42));
}

#[test]
fn largest_difficulty_is_admitted() {
    assert_eq!(MAX_DIFFICULTY, (u64::MAX - 1) / 100);
}
