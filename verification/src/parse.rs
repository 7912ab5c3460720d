//! Response parsing, carried out by `serde_json`.
//!
//! The inbound bodies are arbitrary JSON, so their parses are not
//! restated here; each parse is given a name (an uninterpreted spec
//! function of the body text alone) and performed behind a trusted
//! wrapper whose contract ties the returned record to that name.  The
//! classification logic in [`crate::client`] is verified against the
//! names, for every value a parse could take.

use vstd::prelude::*;

use crate::models::film::{films_match, Film, FilmFields};
use crate::models::user::{LoginResult, RegisterResult};

verus! {

/// The film list a body text denotes: `Some` exactly when the body is
/// a JSON array of records that each carry an `id`, `title` and
/// `description` string and an `isMovie` boolean, in which case the
/// fields follow in the array's order.
pub uninterp spec fn film_array_parse(body: Seq<char>) -> Option<Seq<FilmFields>>;

/// Relies on `serde_json::from_str` and `serde_json::Value`'s `get`,
/// `as_str` and `as_bool`: the parsed film list is a function of the
/// body text alone, named by [`film_array_parse`].
#[verifier::external_body]
pub(crate) fn parse_film_array(body: &str) -> (r: Option<Vec<Film>>)
    ensures
        match film_array_parse(body@) {
            Some(models) => r matches Some(films) && films_match(films@, models),
            None => r is None,
        },
{
    let values: Vec<serde_json::Value> = serde_json::from_str(body).ok()?;
    let mut films = Vec::new();
    for v in values.iter() {
        films.push(Film {
            id: v.get("id")?.as_str()?.to_string(),
            title: v.get("title")?.as_str()?.to_string(),
            description: v.get("description")?.as_str()?.to_string(),
            is_movie: v.get("isMovie")?.as_bool()?,
        });
    }
    Some(films)
}

/// The login record a body text denotes: `Some` exactly when the body
/// is a JSON object carrying an integral `id` in `i32` range, a
/// `username` string and a `jwtToken` string.
pub uninterp spec fn login_reply_parse(body: Seq<char>) -> Option<(i32, Seq<char>, Seq<char>)>;

/// Relies on `serde_json::from_str` and `serde_json::Value`'s `get`,
/// `as_i64` and `as_str`: the parsed record is a function of the body
/// text alone, named by [`login_reply_parse`].
#[verifier::external_body]
pub(crate) fn parse_login_reply(body: &str) -> (r: Option<LoginResult>)
    ensures
        match login_reply_parse(body@) {
            Some(m) => r matches Some(res) && res.id == m.0 && res.username@ == m.1
                && res.jwt_token@ == m.2,
            None => r is None,
        },
{
    let v: serde_json::Value = serde_json::from_str(body).ok()?;
    Some(LoginResult {
        id: i32::try_from(v.get("id")?.as_i64()?).ok()?,
        username: v.get("username")?.as_str()?.to_string(),
        jwt_token: v.get("jwtToken")?.as_str()?.to_string(),
    })
}

/// The registration record a body text denotes: `Some` exactly when
/// the body is a JSON object carrying an integral `id` in `i32` range
/// and `username`, `email` and `jwt` strings.
pub uninterp spec fn register_reply_parse(body: Seq<char>) -> Option<
    (i32, Seq<char>, Seq<char>, Seq<char>),
>;

/// Relies on `serde_json::from_str` and `serde_json::Value`'s `get`,
/// `as_i64` and `as_str`: the parsed record is a function of the body
/// text alone, named by [`register_reply_parse`].
#[verifier::external_body]
pub(crate) fn parse_register_reply(body: &str) -> (r: Option<RegisterResult>)
    ensures
        match register_reply_parse(body@) {
            Some(m) => r matches Some(res) && res.id == m.0 && res.username@ == m.1
                && res.email@ == m.2 && res.jwt@ == m.3,
            None => r is None,
        },
{
    let v: serde_json::Value = serde_json::from_str(body).ok()?;
    Some(RegisterResult {
        id: i32::try_from(v.get("id")?.as_i64()?).ok()?,
        username: v.get("username")?.as_str()?.to_string(),
        email: v.get("email")?.as_str()?.to_string(),
        jwt: v.get("jwt")?.as_str()?.to_string(),
    })
}

} // verus!
