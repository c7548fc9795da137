//! Request and response shapes of the HelixQL endpoints that the client calls.

use vstd::prelude::*;

use crate::score::Score;

verus! {

/// Parameters for the `listTopFilms` HelixQL query.
#[derive(Debug, Clone)]
pub struct ListTopFilmsParams {
    /// Source label that the films are filtered on (Doc.source field).
    pub genre: String,
    /// Maximum number of films to return.
    pub limit: i64,
}

impl ListTopFilmsParams {
    /// Parameters asking for at most `limit` films whose source is `genre`.
    pub fn new(genre: &str, limit: i64) -> (p: ListTopFilmsParams)
        ensures
            p.genre@ == genre@,
            p.limit == limit,
    {
        ListTopFilmsParams { genre: genre.to_owned(), limit }
    }
}

/// One row returned by `listTopFilms` (and other QUERY endpoints that return
/// Doc-shaped rows).
#[derive(Debug, Clone, PartialEq)]
pub struct FilmHit {
    /// HelixDB ID (positive integer per the schema).
    pub id: i64,
    /// Document title.
    pub title: String,
    /// Document content (the row's full text).
    pub content: String,
    /// Document source label.
    pub source: String,
    /// Similarity or rank score in [0, 1]; 0.0 when the row carries none.
    pub score: Score,
}

} // verus!
