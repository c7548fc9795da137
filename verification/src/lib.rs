//! Typed client for HelixDB HTTP endpoints.
//!
//! A [`HelixClient`] is built against the base URL of a HelixDB instance
//! (`helix push dev` serves one at `http://localhost:6969`); every HelixQL
//! `QUERY name(args)` is served at `<base_url>/query/<name>`. The decisions of
//! a call stand in [`query`]: what to do with the response, and which
//! [`HelixError`] reports a failure. The four runtime contracts that a
//! `listTopFilms` response is held to stand in [`contracts`].

pub mod client;
pub mod contracts;
pub mod error;
pub mod http;
pub mod query;
pub mod score;
pub mod text;
pub mod types;

pub use client::HelixClient;
pub use contracts::{
    assert_all_ids_positive, assert_descending_sort, assert_row_count,
    assert_top_score_non_negative, ContractViolation,
};
pub use error::HelixError;
pub use score::Score;
pub use types::{FilmHit, ListTopFilmsParams};
