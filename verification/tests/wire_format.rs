//! The serialized request bodies and URLs, checked character for
//! character against concrete expectations.

use film_forum::client::ApiClient;
use film_forum::models::user::User;
use film_forum::wire::{login_body, register_body, search_url};

#[test]
fn login_body_is_compact_json() {
    let body = login_body("a@b.c", "pw");
    assert_eq!(body, "{\"email\":\"a@b.c\",\"password\":\"pw\"}");
}

#[test]
fn login_body_escapes_quotes_backslashes_and_newlines() {
    let body = login_body("a\"b", "p\\q\nr");
    assert_eq!(body, "{\"email\":\"a\\\"b\",\"password\":\"p\\\\q\\nr\"}");
}

#[test]
fn login_body_escapes_control_characters() {
    let body = login_body("x", "a\tb\u{1}c");
    assert_eq!(body, "{\"email\":\"x\",\"password\":\"a\\tb\\u0001c\"}");
}

#[test]
fn login_body_of_empty_credentials() {
    let body = login_body("", "");
    assert_eq!(body, "{\"email\":\"\",\"password\":\"\"}");
}

#[test]
fn register_body_without_secret_key() {
    let user = User::new("alice", "alice@mail.pl", "pw1", "pw1");
    let body = register_body(&user);
    assert_eq!(
        body,
        "{\"username\":\"alice\",\"email\":\"alice@mail.pl\",\"password\":\"pw1\",\"confirmPassword\":\"pw1\"}"
    );
    assert!(!body.contains("secretKey"));
}

#[test]
fn register_body_with_secret_key() {
    let user = User::new("root", "root@mail.pl", "pw2", "pw2").with_secret_key("s3cr3t");
    let body = register_body(&user);
    assert_eq!(
        body,
        "{\"username\":\"root\",\"email\":\"root@mail.pl\",\"password\":\"pw2\",\"confirmPassword\":\"pw2\",\"secretKey\":\"s3cr3t\"}"
    );
}

#[test]
fn register_body_keys_omit_secret_key_entirely() {
    let user = User::new("bob", "bob@mail.pl", "zaq1@WSX", "zaq1@WSX");
    let body = register_body(&user);
    let value: serde_json::Value = serde_json::from_str(&body).unwrap();
    let object = value.as_object().unwrap();
    assert_eq!(object.len(), 4);
    assert!(object.contains_key("username"));
    assert!(object.contains_key("email"));
    assert!(object.contains_key("password"));
    assert!(object.contains_key("confirmPassword"));
    assert!(!object.contains_key("secretKey"));
}

#[test]
fn register_body_round_trips_through_a_json_parser() {
    let user = User::new("a\"b", "x@y", "p\\w", "p\\w").with_secret_key("k\n");
    let body = register_body(&user);
    let value: serde_json::Value = serde_json::from_str(&body).unwrap();
    assert_eq!(value.get("username").unwrap().as_str().unwrap(), "a\"b");
    assert_eq!(value.get("email").unwrap().as_str().unwrap(), "x@y");
    assert_eq!(value.get("password").unwrap().as_str().unwrap(), "p\\w");
    assert_eq!(value.get("confirmPassword").unwrap().as_str().unwrap(), "p\\w");
    assert_eq!(value.get("secretKey").unwrap().as_str().unwrap(), "k\n");
}

#[test]
fn search_url_keeps_unreserved_bytes() {
    let url = search_url("http://127.0.0.1:5105", "Abc-1._~");
    assert_eq!(url, "http://127.0.0.1:5105/api/film/search/Abc-1._~");
}

#[test]
fn search_url_percent_encodes_spaces_and_reserved_bytes() {
    let url = search_url("http://127.0.0.1:5105", "hello world/?#");
    assert_eq!(
        url,
        "http://127.0.0.1:5105/api/film/search/hello%20world%2F%3F%23"
    );
}

#[test]
fn search_url_percent_encodes_utf8_bytes() {
    let url = search_url("http://h", "é");
    assert_eq!(url, "http://h/api/film/search/%C3%A9");
}

#[test]
fn client_urls_append_fixed_paths() {
    let client = ApiClient::new("http://example.test:1");
    assert_eq!(client.login_url(), "http://example.test:1/login");
    assert_eq!(client.register_url(), "http://example.test:1/register");
    assert_eq!(
        client.search_url("x"),
        "http://example.test:1/api/film/search/x"
    );
}

#[test]
fn default_client_points_at_the_local_server() {
    let client = ApiClient::default();
    assert_eq!(client.base_url, "http://127.0.0.1:5105");
}
