use url_shortener::base62::base62_encode;
use url_shortener::mint::{
    candidate_from_digest, generate_short_code, nth_candidate, short_code_from_digest, MAX_INSERT_ATTEMPTS,
};

fn codes(list: &[&str]) -> Vec<String> {
    list.iter().map(|s| s.to_string()).collect()
}

#[test]
fn base62_of_zero_is_a_single_digit() {
    assert_eq!(base62_encode(0), "0");
}

#[test]
fn base62_single_and_multi_digit_numbers() {
    assert_eq!(base62_encode(9), "9");
    assert_eq!(base62_encode(10), "A");
    assert_eq!(base62_encode(36), "a");
    assert_eq!(base62_encode(61), "z");
    assert_eq!(base62_encode(62), "10");
    assert_eq!(base62_encode(3843), "zz");
    assert_eq!(base62_encode(3844), "100");
}

#[test]
fn base62_of_largest_u64() {
    assert_eq!(base62_encode(u64::MAX), "LygHa16AHYF");
}

#[test]
fn digest_fold_gives_base_code() {
    let digest = vec![1u8, 2, 3, 4, 5, 6, 7, 8];
    assert_eq!(short_code_from_digest(&digest, &Vec::new()), "6qZiG");
}

#[test]
fn digest_fold_of_all_ones_bytes() {
    let digest = vec![255u8; 32];
    assert_eq!(short_code_from_digest(&digest, &Vec::new()), "9NKDL5");
}

#[test]
fn digest_collision_appends_counter() {
    let digest = vec![1u8, 2, 3, 4, 5, 6];
    assert_eq!(short_code_from_digest(&digest, &codes(&["6qZiG"])), "6qZiG1");
    assert_eq!(short_code_from_digest(&digest, &codes(&["6qZiG", "6qZiG1"])), "6qZiG12");
    assert_eq!(
        short_code_from_digest(&digest, &codes(&["6qZiG1", "other", "6qZiG", "6qZiG12"])),
        "6qZiG123"
    );
}

#[test]
fn unrelated_existing_codes_do_not_change_the_code() {
    let digest = vec![1u8, 2, 3, 4, 5, 6];
    assert_eq!(short_code_from_digest(&digest, &codes(&["abc", "6qZiG2"])), "6qZiG");
}

#[test]
fn mint_uses_sha256_of_the_url() {
    assert_eq!(generate_short_code("https://a.test", &Vec::new()), "4xl2AY");
    assert_eq!(generate_short_code("https://example.com", &Vec::new()), "1q32An");
    assert_eq!(generate_short_code("https://rust-lang.org", &Vec::new()), "7hvPJ1");
}

#[test]
fn mint_is_deterministic_for_empty_existing() {
    let first = generate_short_code("https://example.com/some/path", &Vec::new());
    let second = generate_short_code("https://example.com/some/path", &Vec::new());
    assert_eq!(first, second);
}

#[test]
fn collision_gives_fresh_base62_code() {
    let existing = codes(&["4xl2AY", "4xl2AY1"]);
    let code = generate_short_code("https://a.test", &existing);
    assert_eq!(code, "4xl2AY12");
    assert!(!existing.contains(&code));
    assert!(code.chars().all(|c| c.is_ascii_alphanumeric()));
}

#[test]
fn taken_code_gets_counter_suffix() {
    let taken = generate_short_code("https://a.test", &Vec::new());
    let existing = vec![taken.clone()];
    let code = generate_short_code("https://a.test", &existing);
    assert_ne!(code, taken);
    assert_eq!(code, format!("{}1", taken));
}

#[test]
fn candidates_for_insert_attempts() {
    let digest = vec![1u8, 2, 3, 4, 5, 6];
    assert_eq!(candidate_from_digest(&digest, 0), "6qZiG");
    assert_eq!(candidate_from_digest(&digest, 1), "6qZiG1");
    assert_eq!(candidate_from_digest(&digest, 3), "6qZiG123");
}

#[test]
fn nth_candidate_is_bounded() {
    assert_eq!(MAX_INSERT_ATTEMPTS, 8);
    assert_eq!(nth_candidate("https://a.test", 0).as_deref(), Some("4xl2AY"));
    assert_eq!(nth_candidate("https://a.test", 2).as_deref(), Some("4xl2AY12"));
    assert_eq!(nth_candidate("https://a.test", 7).as_deref(), Some("4xl2AY1234567"));
    assert!(nth_candidate("https://a.test", 8).is_none());
}

#[test]
fn retrying_on_conflicts_matches_scanning() {
    let taken = codes(&["4xl2AY", "4xl2AY1"]);
    let mut attempt = 0;
    let code = loop {
        let code = nth_candidate("https://a.test", attempt).expect("within bound");
        if !taken.contains(&code) {
            break code;
        }
        attempt += 1;
    };
    assert_eq!(code, generate_short_code("https://a.test", &taken));
}
