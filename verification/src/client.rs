//! The API client core: request construction and response
//! classification for the search, login and register operations.
//!
//! The transport itself (sending the request, reading the body) is the
//! caller's: a driver performs one HTTP cycle per call and hands the
//! result in as an [`HttpOutcome`].  Classification is a pure function
//! of that outcome, so every call is a self-contained
//! request/response cycle — no session, no token storage, no retry.

use vstd::prelude::*;

use crate::models::film::{films_match, Film, FilmFields, SearchError};
use crate::models::user::{LoginError, LoginResult, RegisterError, RegisterResult};
use crate::parse::{
    film_array_parse, login_reply_parse, parse_film_array, parse_login_reply,
    parse_register_reply, register_reply_parse,
};
use crate::wire::{search_url, search_url_spec};

verus! {

/// What one HTTP request/response cycle came to.
///
/// `Failed` stands for every transport failure: the request could not
/// be sent, or the response body could not be read.  `Received`
/// carries the body text verbatim.  The status line is deliberately
/// not part of the outcome: the protocol classifies every received
/// body by its content alone, a 500 page like any other unparsable
/// body.
#[derive(Debug, Clone)]
pub enum HttpOutcome {
    Failed,
    Received(String),
}

/// The endpoint configuration: the base URL every path is appended
/// to.  It is injected at construction time; [`ApiClient::default`]
/// supplies the usual local development server.
#[derive(Debug, Clone)]
pub struct ApiClient {
    pub base_url: String,
}

impl ApiClient {
    /// A client against the given base URL (no trailing slash).
    pub fn new(base_url: &str) -> (client: ApiClient)
        ensures
            client.base_url@ == base_url@,
    {
        ApiClient { base_url: String::from_str(base_url) }
    }

    /// The GET URL of a search for `query`.
    pub fn search_url(&self, query: &str) -> (r: String)
        ensures
            r@ == search_url_spec(self.base_url@, query@),
    {
        search_url(self.base_url.as_str(), query)
    }

    /// The POST URL of the login endpoint.  The POST itself carries
    /// the headers `Accept: */*` and `Content-Type: application/json`
    /// and the body [`crate::wire::login_body`] builds.
    pub fn login_url(&self) -> (r: String)
        ensures
            r@ == self.base_url@ + "/login"@,
    {
        let mut out = String::from_str(self.base_url.as_str());
        out.append("/login");
        out
    }

    /// The POST URL of the register endpoint.  The POST itself
    /// carries the same headers as the login POST and the body
    /// [`crate::wire::register_body`] builds.
    pub fn register_url(&self) -> (r: String)
        ensures
            r@ == self.base_url@ + "/register"@,
    {
        let mut out = String::from_str(self.base_url.as_str());
        out.append("/register");
        out
    }
}

impl Default for ApiClient {
    /// The documented default: the local development server.
    fn default() -> (client: ApiClient)
        ensures
            client.base_url@ == "http://127.0.0.1:5105"@,
    {
        ApiClient::new("http://127.0.0.1:5105")
    }
}

// ---------------------------------------------------------------------
// Search
// ---------------------------------------------------------------------

/// The film list a search outcome resolves to: the parsed records in
/// server order on a well-formed body, and the empty list on every
/// transport failure or malformed body.  A caller can therefore not
/// tell "no matches" from "search failed"; that asymmetry is part of
/// the contract, not an accident.
pub open spec fn search_films_spec(outcome: HttpOutcome) -> Seq<FilmFields> {
    match outcome {
        HttpOutcome::Failed => Seq::empty(),
        HttpOutcome::Received(body) => match film_array_parse(body@) {
            Some(models) => models,
            None => Seq::empty(),
        },
    }
}

/// Resolves the outcome of a search request.  Never an error: the
/// result is `Ok` for every outcome, carrying exactly
/// [`search_films_spec`] of it.
pub fn search(outcome: HttpOutcome) -> (r: Result<Vec<Film>, SearchError>)
    ensures
        r matches Ok(films) && films_match(films@, search_films_spec(outcome)),
{
    match outcome {
        HttpOutcome::Failed => Ok(Vec::new()),
        HttpOutcome::Received(body) => match parse_film_array(body.as_str()) {
            Some(films) => Ok(films),
            None => Ok(Vec::new()),
        },
    }
}

/// Identical search outcomes resolve to identical ordered film lists:
/// any two results that satisfy the search contract for the same
/// outcome agree in length and in every record, in order.
pub proof fn lemma_search_deterministic(
    outcome: HttpOutcome,
    films1: Seq<Film>,
    films2: Seq<Film>,
)
    ensures
        films_match(films1, search_films_spec(outcome)) && films_match(
            films2,
            search_films_spec(outcome),
        ) ==> films1.len() == films2.len() && (forall|i: int|
            0 <= i < films1.len() ==> #[trigger] films1[i].fields() == films2[i].fields()),
{
    let models = search_films_spec(outcome);
    if films_match(films1, models) && films_match(films2, models) {
        assert forall|i: int|
            0 <= i < films1.len() implies #[trigger] films1[i].fields() == films2[i].fields() by {
            assert(films1[i].fields() == models[i]);
            assert(films2[i].fields() == models[i]);
        }
    }
}

// ---------------------------------------------------------------------
// Login
// ---------------------------------------------------------------------

/// How a login outcome must resolve: a transport failure is a
/// `ConnectionError`; a received body that parses as a login record is
/// that record; any other body is a `CredentialsError` carrying the
/// body verbatim.
pub open spec fn login_resolves(outcome: HttpOutcome, r: Result<LoginResult, LoginError>) -> bool {
    match outcome {
        HttpOutcome::Failed => r matches Err(LoginError::ConnectionError),
        HttpOutcome::Received(body) => match login_reply_parse(body@) {
            Some(m) => r matches Ok(res) && res.id == m.0 && res.username@ == m.1
                && res.jwt_token@ == m.2,
            None => r matches Err(LoginError::CredentialsError(raw)) && raw@ == body@,
        },
    }
}

/// Resolves the outcome of a login POST.
pub fn login(outcome: HttpOutcome) -> (r: Result<LoginResult, LoginError>)
    ensures
        login_resolves(outcome, r),
{
    match outcome {
        HttpOutcome::Failed => Err(LoginError::ConnectionError),
        HttpOutcome::Received(body) => match parse_login_reply(body.as_str()) {
            Some(res) => Ok(res),
            None => Err(LoginError::CredentialsError(body)),
        },
    }
}

// ---------------------------------------------------------------------
// Register
// ---------------------------------------------------------------------

/// The exact body the server sends when the email is taken.
pub open spec fn email_sentinel() -> Seq<char> {
    "Email already exists"@
}

/// The exact body the server sends when the username is taken.
pub open spec fn username_sentinel() -> Seq<char> {
    "Username already exists"@
}

/// How a register outcome must resolve.  The two sentinel bodies are
/// matched exactly, before any parse is attempted; that ordered check
/// is a real (if fragile) protocol contract with the server.  Any
/// other body parses as a registration record or, failing that, is
/// wrapped verbatim in a `CredentialsError` — a parse failure here is
/// reported, not a crash.
pub open spec fn register_resolves(
    outcome: HttpOutcome,
    r: Result<RegisterResult, RegisterError>,
) -> bool {
    match outcome {
        HttpOutcome::Failed => r matches Err(RegisterError::ConnectionError),
        HttpOutcome::Received(body) => if body@ == email_sentinel() {
            r matches Err(RegisterError::EmailError(raw)) && raw@ == body@
        } else if body@ == username_sentinel() {
            r matches Err(RegisterError::UsernameError(raw)) && raw@ == body@
        } else {
            match register_reply_parse(body@) {
                Some(m) => r matches Ok(res) && res.id == m.0 && res.username@ == m.1
                    && res.email@ == m.2 && res.jwt@ == m.3,
                None => r matches Err(RegisterError::CredentialsError(raw)) && raw@ == body@,
            }
        },
    }
}

/// Resolves the outcome of a register POST.
pub fn register(outcome: HttpOutcome) -> (r: Result<RegisterResult, RegisterError>)
    ensures
        register_resolves(outcome, r),
{
    match outcome {
        HttpOutcome::Failed => Err(RegisterError::ConnectionError),
        HttpOutcome::Received(body) => {
            let email_taken = String::from_str("Email already exists");
            let username_taken = String::from_str("Username already exists");
            if body == email_taken {
                Err(RegisterError::EmailError(body))
            } else if body == username_taken {
                Err(RegisterError::UsernameError(body))
            } else {
                match parse_register_reply(body.as_str()) {
                    Some(res) => Ok(res),
                    None => Err(RegisterError::CredentialsError(body)),
                }
            }
        },
    }
}

} // verus!

