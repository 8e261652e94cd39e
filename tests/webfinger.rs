use authelia_webfinger::directory::{UsersDatabase, UsersDatabaseUser, WebState};
use authelia_webfinger::web::{
    normalize, webfinger, QueryError, WebfingerError, WebfingerParams, WebfingerResponse,
};

const ISSUER: &str = "http://openid.net/specs/connect/1.0/issuer";
const CALLBACK: &str = "https://auth.example.com/oidc";

fn user(email: &str) -> UsersDatabaseUser {
    UsersDatabaseUser {
        disabled: false,
        displayname: "Someone".to_string(),
        password: "$argon2id$hash".to_string(),
        email: email.to_string(),
        groups: vec!["users".to_string()],
    }
}

fn state(entries: &[(&str, &str)]) -> WebState {
    let mut db = UsersDatabase::new();
    for (name, email) in entries {
        db.insert(name.to_string(), user(email));
    }
    WebState::new(db, CALLBACK.to_string())
}

fn alice_state() -> WebState {
    state(&[("alice", "alice@example.com")])
}

fn query(rel: &str, resource: &str) -> WebfingerParams {
    WebfingerParams { rel: rel.to_string(), resource: resource.to_string() }
}

fn ok(r: Result<WebfingerResponse, WebfingerError>) -> WebfingerResponse {
    match r {
        Ok(resp) => resp,
        Err(WebfingerError::UserNotFound(e)) => panic!("unexpected not found: {e}"),
    }
}

fn not_found(r: Result<WebfingerResponse, WebfingerError>) -> String {
    match r {
        Ok(resp) => panic!("unexpected success: {}", resp.subject),
        Err(WebfingerError::UserNotFound(e)) => e,
    }
}

#[test]
fn end_to_end_acct_identifier() {
    let data = alice_state();
    let resp = ok(webfinger(&query(ISSUER, "acct:alice@example.com"), &data));
    assert_eq!(resp.subject, "acct:alice@example.com");
    assert_eq!(resp.links.len(), 1);
    assert_eq!(resp.links[0].rel, ISSUER);
    assert_eq!(resp.links[0].href, CALLBACK);
}

#[test]
fn end_to_end_unknown_account() {
    let data = alice_state();
    let err = webfinger(&query(ISSUER, "bob@example.com"), &data).err().unwrap();
    let (status, body) = err.into_response();
    assert_eq!(status, 404);
    assert_eq!(body.message, "No user with email address bob@example.com exists");
}

#[test]
fn missing_resource_is_refused() {
    let r = WebfingerParams::from_query(Some(ISSUER.to_string()), None);
    assert!(matches!(r, Err(QueryError::MissingResource)));
    let (status, body) = r.err().unwrap().into_response();
    assert_eq!(status, 400);
    assert_eq!(body.message, "Failed to deserialize query string: missing field `resource`");
}

#[test]
fn missing_rel_is_refused() {
    let r = WebfingerParams::from_query(None, Some("acct:alice@example.com".to_string()));
    assert!(matches!(r, Err(QueryError::MissingRel)));
    let r = WebfingerParams::from_query(None, None);
    assert!(matches!(r, Err(QueryError::MissingRel)));
    let (status, body) = r.err().unwrap().into_response();
    assert_eq!(status, 400);
    assert_eq!(body.message, "Failed to deserialize query string: missing field `rel`");
}

#[test]
fn complete_query_is_taken() {
    let p = WebfingerParams::from_query(Some("r".to_string()), Some("acct:a@b".to_string()))
        .ok()
        .unwrap();
    assert_eq!(p.rel, "r");
    assert_eq!(p.resource, "acct:a@b");
}

#[test]
fn every_listed_account_resolves_with_any_rel() {
    let data = state(&[("alice", "alice@example.com"), ("carol", "carol@example.org")]);
    for email in ["alice@example.com", "carol@example.org"] {
        for rel in ["", "self", ISSUER] {
            let resource = format!("acct:{email}");
            let resp = ok(webfinger(&query(rel, &resource), &data));
            assert_eq!(resp.subject, resource);
            assert_eq!(resp.links.len(), 1);
            assert_eq!(resp.links[0].rel, rel);
            assert_eq!(resp.links[0].href, CALLBACK);
        }
    }
}

#[test]
fn prefix_is_optional() {
    let data = alice_state();
    let bare = ok(webfinger(&query(ISSUER, "alice@example.com"), &data));
    let prefixed = ok(webfinger(&query(ISSUER, "acct:alice@example.com"), &data));
    assert_eq!(bare.subject, "alice@example.com");
    assert_eq!(bare.links.len(), 1);
    assert_eq!(bare.links[0].rel, prefixed.links[0].rel);
    assert_eq!(bare.links[0].href, prefixed.links[0].href);
}

#[test]
fn not_found_carries_normalized_address() {
    let data = alice_state();
    assert_eq!(not_found(webfinger(&query("r", "acct:bob@example.com"), &data)), "bob@example.com");
    assert_eq!(not_found(webfinger(&query("r", "bob@example.com"), &data)), "bob@example.com");
    assert_eq!(not_found(webfinger(&query("r", "acct:acct:alice@example.com"), &data)), "acct:alice@example.com");
    assert_eq!(not_found(webfinger(&query("r", ""), &data)), "");
    assert_eq!(not_found(webfinger(&query("r", "acct:"), &data)), "");
}

#[test]
fn prefix_match_is_case_sensitive() {
    let data = alice_state();
    assert_eq!(not_found(webfinger(&query("r", "ACCT:alice@example.com"), &data)), "ACCT:alice@example.com");
    assert_eq!(not_found(webfinger(&query("r", "Alice@example.com"), &data)), "Alice@example.com");
}

#[test]
fn repeated_query_gives_same_answer() {
    let data = alice_state();
    let q = query(ISSUER, "acct:alice@example.com");
    let first = ok(webfinger(&q, &data));
    let second = ok(webfinger(&q, &data));
    assert_eq!(first.subject, second.subject);
    assert_eq!(first.links.len(), second.links.len());
    assert_eq!(first.links[0].rel, second.links[0].rel);
    assert_eq!(first.links[0].href, second.links[0].href);
    let miss = query(ISSUER, "acct:bob@example.com");
    assert_eq!(not_found(webfinger(&miss, &data)), not_found(webfinger(&miss, &data)));
}

#[test]
fn shared_email_goes_to_first_account() {
    let data = state(&[("alice", "team@example.com"), ("bob", "team@example.com")]);
    assert_eq!(data.lookup(&"team@example.com".to_string()), Some("alice".to_string()));
    let data = state(&[("bob", "team@example.com"), ("alice", "team@example.com")]);
    assert_eq!(data.lookup(&"team@example.com".to_string()), Some("bob".to_string()));
    let resp = ok(webfinger(&query("r", "acct:team@example.com"), &data));
    assert_eq!(resp.subject, "acct:team@example.com");
}

#[test]
fn lookup_finds_each_username() {
    let data = state(&[("alice", "alice@example.com"), ("carol", "carol@example.org")]);
    assert_eq!(data.lookup(&"carol@example.org".to_string()), Some("carol".to_string()));
    assert_eq!(data.lookup(&"alice@example.com".to_string()), Some("alice".to_string()));
    assert_eq!(data.lookup(&"dave@example.org".to_string()), None);
}

#[test]
fn empty_directory_finds_nobody() {
    let data = state(&[]);
    assert_eq!(not_found(webfinger(&query("r", "acct:alice@example.com"), &data)), "alice@example.com");
}

#[test]
fn empty_email_is_indexed_verbatim() {
    let data = state(&[("ghost", "")]);
    let resp = ok(webfinger(&query("r", "acct:"), &data));
    assert_eq!(resp.subject, "acct:");
    let resp = ok(webfinger(&query("r", ""), &data));
    assert_eq!(resp.subject, "");
}

#[test]
fn reinserting_username_replaces_account() {
    let mut db = UsersDatabase::new();
    db.insert("alice".to_string(), user("old@example.com"));
    db.insert("alice".to_string(), user("new@example.com"));
    let data = WebState::new(db, CALLBACK.to_string());
    assert_eq!(data.lookup(&"old@example.com".to_string()), None);
    assert_eq!(data.lookup(&"new@example.com".to_string()), Some("alice".to_string()));
}

#[test]
fn callback_is_the_configured_url() {
    let data = alice_state();
    assert_eq!(data.auth_url(), CALLBACK);
}

#[test]
fn normalize_strips_one_prefix() {
    assert_eq!(normalize(&"acct:x@y".to_string()), "x@y");
    assert_eq!(normalize(&"x@y".to_string()), "x@y");
    assert_eq!(normalize(&"acct:acct:x".to_string()), "acct:x");
    assert_eq!(normalize(&"acc".to_string()), "acc");
    assert_eq!(normalize(&"acct:ü@é".to_string()), "ü@é");
}
