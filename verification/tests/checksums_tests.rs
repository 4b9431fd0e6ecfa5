//! Tests for the checksum comparison and the raw-file URLs.

use checker_bot::{ChangeSet, Repo, all_observed_match, checksum_matches, raw_file_url};
use checker_bot::{str_contains, str_eq};

const SHA512_EMPTY: &str = "cf83e1357eefb8bdf1542850d66d8007d620e4050b5715dc83f4a921d36ce9ce47d0d13c5d85f2b0ff8318d2877eec2f63b931bd47417a81a538327af927da3e";
const SHA512_ABC: &str = "ddaf35a193617abacc417349ae20413112e6fa4e89a97ea20a9eeee64b55d39a2192992a274fc1a836ba3c23a3feebbd454d4423643ce80e2a9ac94fa54ca49f";

#[test]
fn checksum_of_empty_input() {
    let content: Vec<u8> = Vec::new();
    assert!(checksum_matches(&content, &String::from(SHA512_EMPTY)));
    assert!(!checksum_matches(&content, &String::from(SHA512_ABC)));
}

#[test]
fn checksum_of_known_content() {
    let content: Vec<u8> = b"abc".to_vec();
    assert!(checksum_matches(&content, &String::from(SHA512_ABC)));
    // The rendering is lowercase: the uppercase form must not match.
    assert!(!checksum_matches(&content, &String::from(SHA512_ABC).to_uppercase()));
    // The raw content itself is not its own checksum.
    assert!(!checksum_matches(&content, &String::from("abc")));
}

#[test]
fn verdict_ignores_errors_and_spots_mismatches() {
    assert!(all_observed_match(&vec![]));
    assert!(all_observed_match(&vec![Some(true), Some(true)]));
    assert!(all_observed_match(&vec![Some(true), None, Some(true)]));
    assert!(all_observed_match(&vec![None, None]));
    assert!(!all_observed_match(&vec![Some(true), Some(false), Some(true)]));
    assert!(!all_observed_match(&vec![Some(false)]));
}

#[test]
fn raw_file_urls_default_to_tip() {
    let cs = ChangeSet::default();
    assert_eq!(
        raw_file_url(&Repo::CommCentral, &cs, "rust/checksums.json"),
        "https://hg-edge.mozilla.org/comm-central/raw-file/tip/rust/checksums.json"
    );
    assert_eq!(
        raw_file_url(&Repo::MozillaCentral, &cs, "Cargo.lock"),
        "https://hg-edge.mozilla.org/mozilla-central/raw-file/tip/Cargo.lock"
    );
}

#[test]
fn raw_file_urls_use_given_revisions() {
    let cs = ChangeSet {
        mc_rev: Some(String::from("abc123")),
        cc_rev: Some(String::from("def456")),
    };
    assert_eq!(
        raw_file_url(&Repo::MozillaCentral, &cs, "Cargo.toml"),
        "https://hg-edge.mozilla.org/mozilla-central/raw-file/abc123/Cargo.toml"
    );
    assert_eq!(
        raw_file_url(&Repo::CommCentral, &cs, "rust/checksums.json"),
        "https://hg-edge.mozilla.org/comm-central/raw-file/def456/rust/checksums.json"
    );
}

#[test]
fn substring_search() {
    assert!(str_contains("push: deps updated", "push:"));
    assert!(!str_contains("pull: deps updated", "push:"));
    assert!(str_contains("abc", ""));
    assert!(str_contains("", ""));
    assert!(!str_contains("", "a"));
    assert!(str_contains("ααβ", "αβ"));
    assert!(!str_contains("ab", "abc"));
    assert!(str_contains("xxabcx", "abc"));
}

#[test]
fn string_equality() {
    assert!(str_eq("", ""));
    assert!(str_eq("abc", "abc"));
    assert!(!str_eq("abc", "abd"));
    assert!(!str_eq("abc", "abcd"));
    assert!(str_eq("é✓", "é✓"));
}
