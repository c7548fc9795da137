//! The outside types of the `reqwest` HTTP client that the library carries.

use vstd::prelude::*;

verus! {

/// The error type of the `reqwest` HTTP client: transport failures and JSON
/// decode failures. Its contents are not looked into.
#[verifier::external_type_specification]
#[verifier::external_body]
pub struct ExReqwestError(reqwest::Error);

/// The asynchronous HTTP client of `reqwest`, with its connection pool. Its
/// contents are not looked into.
#[verifier::external_type_specification]
#[verifier::external_body]
pub struct ExReqwestClient(reqwest::Client);

/// A fresh HTTP client with reqwest's default settings (`reqwest::Client::new`).
///
/// Nothing is stated of the client it returns. reqwest documents that the
/// call panics when a TLS backend cannot be initialized or the resolver
/// cannot load the system configuration. This crate builds reqwest without
/// default features, so with neither a TLS backend nor the hickory resolver:
/// building a fresh client then has no error path, and the call cannot panic.
#[verifier::external_body]
pub(crate) fn new_http_client() -> reqwest::Client {
    reqwest::Client::new()
}

/// A handle to the same connection pool (`reqwest::Client::clone`). The client
/// is a derived `Clone` over one `Arc` of its state, so the clone is the same
/// client.
#[verifier::external_body]
pub(crate) fn clone_http_client(client: &reqwest::Client) -> (r: reqwest::Client)
    ensures
        r == *client,
{
    client.clone()
}

} // verus!
