//! The film record returned by the search endpoint.

use vstd::prelude::*;

verus! {

/// Errors of the search operation.
///
/// Search never fails explicitly: every transport or parse failure
/// degrades to an empty result list, so no operation of this library
/// ever constructs a `SearchError`.  The type stays in the signature
/// so that failure variants can be added without changing the shape
/// of the call.
#[derive(Debug, Clone)]
pub struct SearchError;

/// One film of the catalog, as the search endpoint returns it.
///
/// `id` is an opaque stable identifier; it is never parsed numerically.
#[derive(Debug, Clone, PartialEq, Eq)]
pub struct Film {
    pub id: String,
    pub title: String,
    pub description: String,
    pub is_movie: bool,
}

/// The mathematical content of a film record: the three string fields
/// and the movie flag, as plain values.
pub type FilmFields = (Seq<char>, Seq<char>, Seq<char>, bool);

impl Film {
    /// The film's fields as plain values.
    pub open spec fn fields(self) -> FilmFields {
        (self.id@, self.title@, self.description@, self.is_movie)
    }
}

/// `films` carries exactly the records `models`, in the same order.
pub open spec fn films_match(films: Seq<Film>, models: Seq<FilmFields>) -> bool {
    &&& films.len() == models.len()
    &&& forall|i: int| 0 <= i < films.len() ==> #[trigger] films[i].fields() == models[i]
}

} // verus!
