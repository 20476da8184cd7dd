use news_hub::identity::{generate_stable_id, sanitize_guid, slugify, url_to_hash, Guid};
use news_hub::text::{decimal, signed_decimal};
use sha2::{Digest, Sha256};

fn sha_prefix(url: &str) -> String {
    format!("{:x}", Sha256::digest(url.as_bytes()))[..16].to_string()
}

fn guid(value: &str, permalink: bool) -> Option<Guid> {
    Some(Guid { value: value.to_string(), permalink })
}

#[test]
fn url_hash_matches_sha256_prefix() {
    let h = url_to_hash("https://x/1");
    assert_eq!(h, sha_prefix("https://x/1"));
    assert_eq!(h.len(), 16);
    assert!(h.chars().all(|c| c.is_ascii_hexdigit() && !c.is_ascii_uppercase()));
}

#[test]
fn scenario_marketwatch_id_from_url_hash() {
    let id = generate_stable_id("MarketWatch", None, "https://x/1");
    assert_eq!(id, format!("marketwatch-hash-{}", sha_prefix("https://x/1")));
}

#[test]
fn same_inputs_give_same_id() {
    let a = generate_stable_id("Bloomberg", guid("abc123", false), "https://b/2");
    let b = generate_stable_id("Bloomberg", guid("abc123", false), "https://b/2");
    assert_eq!(a, b);
    let c = generate_stable_id("CNBC", None, "https://c/3");
    let d = generate_stable_id("CNBC", None, "https://c/3");
    assert_eq!(c, d);
}

#[test]
fn distinct_sources_do_not_collide() {
    let a = generate_stable_id("CNBC", guid("story1", false), "https://same/url");
    let b = generate_stable_id("Barrons", guid("story1", false), "https://same/url");
    assert_ne!(a, b);
    assert!(a.starts_with("cnbc-"));
    assert!(b.starts_with("barrons-"));
    let c = generate_stable_id("CNBC", None, "https://same/url");
    let d = generate_stable_id("Barrons", None, "https://same/url");
    assert_ne!(c, d);
}

#[test]
fn short_guid_is_kept_sanitized() {
    let id = generate_stable_id("Financial Times", guid("ab c!-d_9", false), "https://ft/1");
    assert_eq!(id, "financial-times-guid-abc-d_9");
}

#[test]
fn permalink_guid_hashes_the_url() {
    let id = generate_stable_id("CNBC", guid("https://cnbc/p/1", true), "https://cnbc/1");
    assert_eq!(id, format!("cnbc-hash-{}", sha_prefix("https://cnbc/1")));
}

#[test]
fn long_guid_hashes_the_url() {
    let id = generate_stable_id("CNBC", guid("0123456789abcdefg", false), "https://cnbc/2");
    assert_eq!(id, format!("cnbc-hash-{}", sha_prefix("https://cnbc/2")));
}

#[test]
fn sixteen_char_guid_is_kept() {
    let id = generate_stable_id("CNBC", guid("0123456789abcdef", false), "https://cnbc/2");
    assert_eq!(id, "cnbc-guid-0123456789abcdef");
}

#[test]
fn guid_without_usable_chars_hashes_the_url() {
    let id = generate_stable_id("CNBC", guid("!!!", false), "https://cnbc/3");
    assert_eq!(id, format!("cnbc-hash-{}", sha_prefix("https://cnbc/3")));
}

#[test]
fn slug_lowercases_and_hyphenates() {
    assert_eq!(slugify("Investing.com Latest"), "investing.com-latest");
    assert_eq!(slugify("Wall Street Journal"), "wall-street-journal");
    assert_eq!(slugify(""), "");
}

#[test]
fn sanitize_keeps_letters_digits_dash_underscore() {
    assert_eq!(sanitize_guid("a/b?c=1&d_e-f"), "abc1d_e-f");
    assert_eq!(sanitize_guid("##"), "");
}

#[test]
fn decimal_rendering() {
    assert_eq!(decimal(0), "0");
    assert_eq!(decimal(7), "7");
    assert_eq!(decimal(1234567890), "1234567890");
    assert_eq!(decimal(u64::MAX), u64::MAX.to_string());
    assert_eq!(signed_decimal(-42), "-42");
    assert_eq!(signed_decimal(i64::MIN), i64::MIN.to_string());
}
