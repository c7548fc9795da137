# helix-client

A typed client for the HTTP endpoints of a HelixDB instance, verified with Verus.

- `src/` is the verified library: the client's base URL and endpoint URLs
  (`client.rs`), the stages of a QUERY call and how each outcome is reported
  (`query.rs`), the error type and its messages (`error.rs`, `text.rs`), the
  four runtime contracts of a `listTopFilms` response (`contracts.rs`), the
  request and row shapes (`types.rs`), and scores held as binary64 bit
  patterns with the floating-point comparisons proved on them (`score.rs`).
  `http.rs` declares the `reqwest` types and calls that the library carries.
- `app/` runs the asynchronous HTTP calls with `reqwest`, holds the serde and
  thiserror copies of the library's types, and the `listTopFilms` demo.
- `tests/` exercises the library on concrete values.
