use std::collections::HashMap;

use ilp_cli::args::RawArguments;
use ilp_cli::request::{Body, Method, RequestSpec};
use ilp_cli::router::run;
use ilp_cli::Error;

const BASE: &str = "http://localhost:7770";

fn raw(pairs: &[(&str, &[&str])]) -> RawArguments {
    let mut r = RawArguments::new();
    for (name, values) in pairs {
        r.insert(
            name.to_string(),
            values.iter().map(|v| v.to_string()).collect(),
        );
    }
    r
}

fn authed(pairs: &[(&str, &[&str])]) -> RawArguments {
    let mut r = raw(pairs);
    r.insert("authorization_key".to_string(), vec!["secret".to_string()]);
    r
}

fn body_map(req: &RequestSpec) -> HashMap<String, String> {
    match &req.body {
        Body::Json(set) => {
            let mut m = HashMap::new();
            for (k, v) in &set.entries {
                m.insert(k.clone(), v.clone());
            }
            m
        }
        other => panic!("expected a JSON body, got {:?}", other),
    }
}

#[test]
fn balance_is_an_authenticated_get() {
    let r = authed(&[("username", &["alice"])]);
    let req = run(BASE, Some("accounts"), Some("balance"), &r).unwrap();
    assert_eq!(req.method, Method::Get);
    assert_eq!(req.url, "http://localhost:7770/accounts/alice/balance");
    assert_eq!(req.bearer.as_deref(), Some("secret"));
    assert!(matches!(req.body, Body::Empty));
}

#[test]
fn create_without_overwrite_posts_with_username_in_path_and_body() {
    let r = authed(&[("username", &["alice"]), ("asset_code", &["USD"])]);
    let req = run(BASE, Some("accounts"), Some("create"), &r).unwrap();
    assert_eq!(req.method, Method::Post);
    assert_eq!(req.url, "http://localhost:7770/accounts/alice");
    assert_eq!(req.bearer.as_deref(), Some("secret"));
    let m = body_map(&req);
    assert_eq!(m.get("username").map(String::as_str), Some("alice"));
    assert_eq!(m.get("asset_code").map(String::as_str), Some("USD"));
}

#[test]
fn create_with_overwrite_puts_without_username_in_path() {
    let r = authed(&[("username", &["alice"]), ("overwrite", &[])]);
    let req = run(BASE, Some("accounts"), Some("create"), &r).unwrap();
    assert_eq!(req.method, Method::Put);
    assert_eq!(req.url, "http://localhost:7770/accounts");
    let m = body_map(&req);
    assert_eq!(m.get("username").map(String::as_str), Some("alice"));
}

#[test]
fn delete_targets_the_account_path() {
    let r = authed(&[("username", &["alice"])]);
    let req = run(BASE, Some("accounts"), Some("delete"), &r).unwrap();
    assert_eq!(req.method, Method::Delete);
    assert_eq!(req.url, "http://localhost:7770/accounts/alice");
    assert!(matches!(req.body, Body::Empty));
}

#[test]
fn info_targets_the_account_path() {
    let r = authed(&[("username", &["alice"])]);
    let req = run(BASE, Some("accounts"), Some("info"), &r).unwrap();
    assert_eq!(req.method, Method::Get);
    assert_eq!(req.url, "http://localhost:7770/accounts/alice");
}

#[test]
fn list_targets_the_accounts_collection() {
    let r = authed(&[("ignored", &["whatever"])]);
    let req = run(BASE, Some("accounts"), Some("list"), &r).unwrap();
    assert_eq!(req.method, Method::Get);
    assert_eq!(req.url, "http://localhost:7770/accounts");
    assert_eq!(req.bearer.as_deref(), Some("secret"));
    assert!(matches!(req.body, Body::Empty));
}

#[test]
fn update_with_admin_flag_puts_the_bare_account_path() {
    let r = authed(&[
        ("username", &["alice"]),
        ("is_admin", &[]),
        ("asset_code", &["USD"]),
    ]);
    let req = run(BASE, Some("accounts"), Some("update"), &r).unwrap();
    assert_eq!(req.method, Method::Put);
    assert_eq!(req.url, "http://localhost:7770/accounts/alice");
    let m = body_map(&req);
    assert!(!m.contains_key("username"));
    assert_eq!(m.get("asset_code").map(String::as_str), Some("USD"));
}

#[test]
fn update_without_admin_flag_puts_the_settings_path() {
    let r = authed(&[("username", &["alice"]), ("asset_code", &["USD"])]);
    let req = run(BASE, Some("accounts"), Some("update"), &r).unwrap();
    assert_eq!(req.method, Method::Put);
    assert_eq!(req.url, "http://localhost:7770/accounts/alice/settings");
    let m = body_map(&req);
    assert!(!m.contains_key("username"));
}

#[test]
fn pay_uses_the_composite_bearer_material() {
    let r = authed(&[("sender_username", &["alice"]), ("amount", &["10"])]);
    let req = run(BASE, Some("pay"), None, &r).unwrap();
    assert_eq!(req.method, Method::Post);
    assert_eq!(req.url, "http://localhost:7770/accounts/alice/payments");
    assert_eq!(req.bearer.as_deref(), Some("alice:secret"));
    let m = body_map(&req);
    assert!(!m.contains_key("sender_username"));
    assert_eq!(m.get("amount").map(String::as_str), Some("10"));
}

#[test]
fn routes_set_sends_the_raw_destination_text() {
    let r = authed(&[("prefix", &["g.usd"]), ("destination", &["peer.usd"])]);
    let req = run(BASE, Some("routes"), Some("set"), &r).unwrap();
    assert_eq!(req.method, Method::Put);
    assert_eq!(req.url, "http://localhost:7770/routes/static/g.usd");
    assert_eq!(req.bearer.as_deref(), Some("secret"));
    match &req.body {
        Body::Raw(d) => assert_eq!(d, "peer.usd"),
        other => panic!("expected a raw body, got {:?}", other),
    }
}

#[test]
fn rates_set_all_puts_the_unflattened_pairs() {
    let r = authed(&[("halve", &["abc", "1.1", "xyz", "2.5"])]);
    let req = run(BASE, Some("rates"), Some("set-all"), &r).unwrap();
    assert_eq!(req.method, Method::Put);
    assert_eq!(req.url, "http://localhost:7770/rates");
    let m = body_map(&req);
    assert_eq!(m.len(), 2);
    assert_eq!(m.get("abc").map(String::as_str), Some("1.1"));
    assert_eq!(m.get("xyz").map(String::as_str), Some("2.5"));
}

#[test]
fn routes_set_all_puts_the_unflattened_pairs() {
    let r = authed(&[("halve", &["g.a", "peer.a", "g.b", "peer.b"])]);
    let req = run(BASE, Some("routes"), Some("set-all"), &r).unwrap();
    assert_eq!(req.method, Method::Put);
    assert_eq!(req.url, "http://localhost:7770/routes/static");
    let m = body_map(&req);
    assert_eq!(m.get("g.a").map(String::as_str), Some("peer.a"));
    assert_eq!(m.get("g.b").map(String::as_str), Some("peer.b"));
}

#[test]
fn settlement_engines_set_all_puts_the_unflattened_pairs() {
    let r = authed(&[("halve", &["USD", "http://localhost:3000"])]);
    let req = run(BASE, Some("settlement-engines"), Some("set-all"), &r).unwrap();
    assert_eq!(req.method, Method::Put);
    assert_eq!(req.url, "http://localhost:7770/settlement/engines");
    let m = body_map(&req);
    assert_eq!(
        m.get("USD").map(String::as_str),
        Some("http://localhost:3000")
    );
}

#[test]
fn rates_list_never_attaches_a_bearer() {
    let r = authed(&[]);
    let req = run(BASE, Some("rates"), Some("list"), &r).unwrap();
    assert_eq!(req.method, Method::Get);
    assert_eq!(req.url, "http://localhost:7770/rates");
    assert!(req.bearer.is_none());
    assert!(matches!(req.body, Body::Empty));
}

#[test]
fn routes_list_never_attaches_a_bearer() {
    let r = authed(&[]);
    let req = run(BASE, Some("routes"), Some("list"), &r).unwrap();
    assert_eq!(req.url, "http://localhost:7770/routes");
    assert!(req.bearer.is_none());
}

#[test]
fn status_never_attaches_a_bearer() {
    let r = authed(&[]);
    let req = run(BASE, Some("status"), None, &r).unwrap();
    assert_eq!(req.method, Method::Get);
    assert_eq!(req.url, "http://localhost:7770/");
    assert!(req.bearer.is_none());
    assert!(matches!(req.body, Body::Empty));
}

#[test]
fn missing_category_is_a_usage_error() {
    let r = raw(&[]);
    match run(BASE, None, None, &r) {
        Err(Error::UsageError(hint)) => assert_eq!(hint, "ilp-cli help"),
        other => panic!("expected a usage error, got {:?}", other),
    }
}

#[test]
fn missing_action_is_a_usage_error_with_the_category_hint() {
    let r = raw(&[]);
    match run(BASE, Some("accounts"), None, &r) {
        Err(Error::UsageError(hint)) => assert_eq!(hint, "ilp-cli help accounts"),
        other => panic!("expected a usage error, got {:?}", other),
    }
    match run(BASE, Some("routes"), None, &r) {
        Err(Error::UsageError(hint)) => assert_eq!(hint, "ilp-cli help routes"),
        other => panic!("expected a usage error, got {:?}", other),
    }
}

#[test]
fn unknown_action_for_a_known_category_is_unrecognized() {
    let r = authed(&[("username", &["alice"])]);
    assert!(matches!(
        run(BASE, Some("accounts"), Some("frobnicate"), &r),
        Err(Error::UnrecognizedCommand)
    ));
    assert!(matches!(
        run(BASE, Some("rates"), Some("delete"), &r),
        Err(Error::UnrecognizedCommand)
    ));
}

#[test]
fn unknown_category_is_unrecognized() {
    let r = raw(&[]);
    assert!(matches!(
        run(BASE, Some("peers"), Some("list"), &r),
        Err(Error::UnrecognizedCommand)
    ));
}

#[test]
fn commands_requiring_auth_fail_without_it() {
    let r = raw(&[("username", &["alice"])]);
    assert!(matches!(
        run(BASE, Some("accounts"), Some("balance"), &r),
        Err(Error::MissingAuthToken)
    ));
    assert!(matches!(
        run(BASE, Some("rates"), Some("set-all"), &r),
        Err(Error::MissingAuthToken)
    ));
}

#[test]
fn commands_requiring_a_username_fail_without_it() {
    let r = authed(&[]);
    match run(BASE, Some("accounts"), Some("balance"), &r) {
        Err(Error::MissingArgument(name)) => assert_eq!(name, "username"),
        other => panic!("expected a missing argument error, got {:?}", other),
    }
    match run(BASE, Some("pay"), None, &r) {
        Err(Error::MissingArgument(name)) => assert_eq!(name, "sender_username"),
        other => panic!("expected a missing argument error, got {:?}", other),
    }
    match run(BASE, Some("routes"), Some("set"), &r) {
        Err(Error::MissingArgument(name)) => assert_eq!(name, "prefix"),
        other => panic!("expected a missing argument error, got {:?}", other),
    }
    let r2 = authed(&[("prefix", &["g.usd"])]);
    match run(BASE, Some("routes"), Some("set"), &r2) {
        Err(Error::MissingArgument(name)) => assert_eq!(name, "destination"),
        other => panic!("expected a missing argument error, got {:?}", other),
    }
}

#[test]
fn incoming_payments_is_a_declared_placeholder() {
    let r = authed(&[("username", &["alice"])]);
    assert!(matches!(
        run(BASE, Some("accounts"), Some("incoming-payments"), &r),
        Err(Error::Unimplemented)
    ));
}
