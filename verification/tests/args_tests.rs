use std::collections::HashMap;

use ilp_cli::args::{extract_args, unflatten_pairs, RawArguments};
use ilp_cli::Error;

fn raw(pairs: &[(&str, &[&str])]) -> RawArguments {
    let mut r = RawArguments::new();
    for (name, values) in pairs {
        r.insert(
            name.to_string(),
            values.iter().map(|v| v.to_string()).collect(),
        );
    }
    r
}

fn entries_as_map(entries: &[(String, String)]) -> HashMap<String, String> {
    let mut m = HashMap::new();
    for (k, v) in entries {
        m.insert(k.clone(), v.clone());
    }
    m
}

#[test]
fn extract_separates_auth_token() {
    let r = raw(&[
        ("authorization_key", &["secret"]),
        ("username", &["alice"]),
        ("asset_code", &["USD"]),
    ]);
    let (auth, set) = extract_args(&r).unwrap();
    assert_eq!(auth, "secret");
    let m = entries_as_map(&set.entries);
    assert!(!m.contains_key("authorization_key"));
    assert_eq!(m.get("username").map(String::as_str), Some("alice"));
    assert_eq!(m.get("asset_code").map(String::as_str), Some("USD"));
    assert_eq!(m.len(), 2);
}

#[test]
fn extract_takes_first_value_and_skips_bare_flags() {
    let r = raw(&[
        ("authorization_key", &["secret"]),
        ("username", &["alice", "bob"]),
        ("overwrite", &[]),
    ]);
    let (_auth, set) = extract_args(&r).unwrap();
    let m = entries_as_map(&set.entries);
    assert_eq!(m.get("username").map(String::as_str), Some("alice"));
    assert!(!m.contains_key("overwrite"));
    assert_eq!(m.len(), 1);
}

#[test]
fn extract_fails_without_auth_token() {
    let r = raw(&[("username", &["alice"])]);
    assert!(matches!(extract_args(&r), Err(Error::MissingAuthToken)));
}

#[test]
fn extract_fails_when_auth_flag_has_no_value() {
    let r = raw(&[("authorization_key", &[]), ("username", &["alice"])]);
    assert!(matches!(extract_args(&r), Err(Error::MissingAuthToken)));
}

#[test]
fn unflatten_fails_without_auth_token() {
    let r = raw(&[("halve", &["a", "1"])]);
    assert!(matches!(unflatten_pairs(&r), Err(Error::MissingAuthToken)));
}

#[test]
fn unflatten_even_length_pairs() {
    let r = raw(&[
        ("authorization_key", &["secret"]),
        ("halve", &["abc", "1.1", "xyz", "2.5"]),
    ]);
    let (auth, pairs) = unflatten_pairs(&r).unwrap();
    assert_eq!(auth, "secret");
    let m = entries_as_map(&pairs.entries);
    assert_eq!(m.len(), 2);
    assert_eq!(m.get("abc").map(String::as_str), Some("1.1"));
    assert_eq!(m.get("xyz").map(String::as_str), Some("2.5"));
}

#[test]
fn unflatten_later_duplicate_key_overwrites() {
    let r = raw(&[
        ("authorization_key", &["secret"]),
        ("halve", &["abc", "1", "abc", "2"]),
    ]);
    let (_auth, pairs) = unflatten_pairs(&r).unwrap();
    let m = entries_as_map(&pairs.entries);
    assert_eq!(m.len(), 1);
    assert_eq!(m.get("abc").map(String::as_str), Some("2"));
}

#[test]
fn unflatten_odd_length_drops_trailing_token() {
    let r = raw(&[
        ("authorization_key", &["secret"]),
        ("halve", &["abc", "1", "dangling"]),
    ]);
    let (_auth, pairs) = unflatten_pairs(&r).unwrap();
    let m = entries_as_map(&pairs.entries);
    assert_eq!(m.len(), 1);
    assert_eq!(m.get("abc").map(String::as_str), Some("1"));
    assert!(!m.contains_key("dangling"));
}

#[test]
fn unflatten_single_token_gives_empty_map() {
    let r = raw(&[("authorization_key", &["secret"]), ("halve", &["alone"])]);
    let (_auth, pairs) = unflatten_pairs(&r).unwrap();
    assert!(pairs.entries.is_empty());
}

#[test]
fn unflatten_without_pair_list_gives_empty_map() {
    let r = raw(&[("authorization_key", &["secret"])]);
    let (auth, pairs) = unflatten_pairs(&r).unwrap();
    assert_eq!(auth, "secret");
    assert!(pairs.entries.is_empty());
}
