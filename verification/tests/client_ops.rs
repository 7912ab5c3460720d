//! Classification of transport outcomes: search, login and register
//! against concrete response bodies.

use film_forum::client::{login, register, search, HttpOutcome};
use film_forum::models::user::{LoginError, RegisterError, User};

fn received(body: &str) -> HttpOutcome {
    HttpOutcome::Received(String::from(body))
}

// ---------------------------------------------------------------------
// search
// ---------------------------------------------------------------------

#[test]
fn search_on_transport_failure_is_an_empty_list() {
    let films = search(HttpOutcome::Failed).unwrap();
    assert!(films.is_empty());
}

#[test]
fn search_on_an_unparsable_body_is_an_empty_list_never_an_error() {
    let films = search(received("Internal Server Error")).unwrap();
    assert!(films.is_empty());
    let films = search(received("")).unwrap();
    assert!(films.is_empty());
    let films = search(received("{\"not\":\"an array\"}")).unwrap();
    assert!(films.is_empty());
}

#[test]
fn search_on_an_empty_array_is_an_empty_list() {
    let films = search(received("[]")).unwrap();
    assert!(films.is_empty());
}

#[test]
fn search_parses_films_in_server_order() {
    let body = "[{\"id\":\"f2\",\"title\":\"Second\",\"description\":\"B\",\"isMovie\":false},\
                {\"id\":\"f1\",\"title\":\"First\",\"description\":\"A\",\"isMovie\":true}]";
    let films = search(received(body)).unwrap();
    assert_eq!(films.len(), 2);
    assert_eq!(films[0].id, "f2");
    assert_eq!(films[0].title, "Second");
    assert_eq!(films[0].description, "B");
    assert!(!films[0].is_movie);
    assert_eq!(films[1].id, "f1");
    assert_eq!(films[1].title, "First");
    assert_eq!(films[1].description, "A");
    assert!(films[1].is_movie);
}

#[test]
fn search_tolerates_extra_fields() {
    let body = "[{\"id\":\"x\",\"title\":\"T\",\"description\":\"D\",\"isMovie\":true,\"year\":2001}]";
    let films = search(received(body)).unwrap();
    assert_eq!(films.len(), 1);
    assert_eq!(films[0].id, "x");
}

#[test]
fn search_with_a_record_missing_a_field_is_an_empty_list() {
    let body = "[{\"id\":\"x\",\"title\":\"T\",\"isMovie\":true}]";
    let films = search(received(body)).unwrap();
    assert!(films.is_empty());
}

#[test]
fn identical_search_outcomes_give_identical_ordered_results() {
    let body = "[{\"id\":\"a\",\"title\":\"A\",\"description\":\"d\",\"isMovie\":true},\
                {\"id\":\"b\",\"title\":\"B\",\"description\":\"e\",\"isMovie\":false}]";
    let first = search(received(body)).unwrap();
    let second = search(received(body)).unwrap();
    assert_eq!(first, second);
}

// ---------------------------------------------------------------------
// login
// ---------------------------------------------------------------------

#[test]
fn login_round_trips_a_well_formed_record() {
    let body = "{\"id\":7,\"username\":\"alice\",\"jwtToken\":\"tok-123\"}";
    let res = login(received(body)).unwrap();
    assert_eq!(res.id, 7);
    assert_eq!(res.username, "alice");
    assert_eq!(res.jwt_token, "tok-123");
}

#[test]
fn login_on_a_non_json_body_keeps_the_exact_text() {
    let res = login(received("Invalid credentials"));
    match res {
        Err(LoginError::CredentialsError(raw)) => assert_eq!(raw, "Invalid credentials"),
        other => panic!("expected CredentialsError, got {:?}", other),
    }
}

#[test]
fn login_on_a_record_missing_the_token_is_a_credentials_error() {
    let res = login(received("{\"id\":1,\"username\":\"u\"}"));
    assert!(matches!(res, Err(LoginError::CredentialsError(_))));
}

#[test]
fn login_on_a_fractional_id_is_a_credentials_error() {
    let res = login(received("{\"id\":1.5,\"username\":\"u\",\"jwtToken\":\"t\"}"));
    assert!(matches!(res, Err(LoginError::CredentialsError(_))));
}

#[test]
fn login_on_an_id_out_of_range_is_a_credentials_error() {
    let res = login(received(
        "{\"id\":4294967296,\"username\":\"u\",\"jwtToken\":\"t\"}",
    ));
    assert!(matches!(res, Err(LoginError::CredentialsError(_))));
}

#[test]
fn login_on_transport_failure_is_a_connection_error() {
    let res = login(HttpOutcome::Failed);
    assert!(matches!(res, Err(LoginError::ConnectionError)));
}

// ---------------------------------------------------------------------
// register
// ---------------------------------------------------------------------

#[test]
fn register_maps_the_email_sentinel() {
    let res = register(received("Email already exists"));
    match res {
        Err(RegisterError::EmailError(raw)) => assert_eq!(raw, "Email already exists"),
        other => panic!("expected EmailError, got {:?}", other),
    }
}

#[test]
fn register_maps_the_username_sentinel() {
    let res = register(received("Username already exists"));
    match res {
        Err(RegisterError::UsernameError(raw)) => assert_eq!(raw, "Username already exists"),
        other => panic!("expected UsernameError, got {:?}", other),
    }
}

#[test]
fn register_sentinels_must_match_exactly() {
    let res = register(received("email already exists"));
    assert!(matches!(res, Err(RegisterError::CredentialsError(_))));
}

#[test]
fn register_parses_any_other_well_formed_body() {
    let body = "{\"id\":3,\"username\":\"bob\",\"email\":\"b@m.pl\",\"jwt\":\"tkn\"}";
    let res = register(received(body)).unwrap();
    assert_eq!(res.id, 3);
    assert_eq!(res.username, "bob");
    assert_eq!(res.email, "b@m.pl");
    assert_eq!(res.jwt, "tkn");
}

#[test]
fn register_wraps_an_unparsable_body_instead_of_crashing() {
    let res = register(received("Something went wrong"));
    match res {
        Err(RegisterError::CredentialsError(raw)) => assert_eq!(raw, "Something went wrong"),
        other => panic!("expected CredentialsError, got {:?}", other),
    }
}

#[test]
fn register_on_transport_failure_is_a_connection_error() {
    let res = register(HttpOutcome::Failed);
    assert!(matches!(res, Err(RegisterError::ConnectionError)));
}

// ---------------------------------------------------------------------
// the payload record
// ---------------------------------------------------------------------

#[test]
fn user_new_keeps_its_fields_and_no_secret_key() {
    let user = User::new("u", "e@m", "p", "c");
    assert_eq!(user.username, "u");
    assert_eq!(user.email, "e@m");
    assert_eq!(user.password, "p");
    assert_eq!(user.confirm_password, "c");
    assert!(user.secret_key.is_none());
}

#[test]
fn user_empty_has_empty_fields() {
    let user = User::empty();
    assert_eq!(user.username, "");
    assert_eq!(user.email, "");
    assert_eq!(user.password, "");
    assert_eq!(user.confirm_password, "");
    assert!(user.secret_key.is_none());
}

#[test]
fn user_with_secret_key_marks_the_payload() {
    let user = User::empty().with_secret_key("k");
    assert_eq!(user.secret_key.as_deref(), Some("k"));
}

#[test]
fn test_register() {
    let user = User::new("username", "username@mail.pl", "zaq1@WSX", "zaq1@WSX");

    let _ = register(received("Email already exists"));

    let body = "{\"id\":1,\"username\":\"username\",\"jwtToken\":\"abc\"}";
    let login_result = login(received(body));

    match login_result {
        Ok(res) => println!("TOKEN: {}", res.jwt_token),
        Err(_) => {}
    }
    assert_eq!(user.username, "username");
}
