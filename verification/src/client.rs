//! The client of a HelixDB instance: its base URL and the endpoint URLs built
//! from it.

use vstd::prelude::*;
use vstd::std_specs::convert::IntoSpec;
use vstd::string::{StrSliceExecFns, StringExecFns};

use crate::http::{clone_http_client, new_http_client};
use crate::types::ListTopFilmsParams;

verus! {

/// `s` with one trailing `/` removed, if it ends with one.
pub open spec fn strip_trailing_slash(s: Seq<char>) -> Seq<char> {
    if s.len() > 0 && s.last() == '/' {
        s.drop_last()
    } else {
        s
    }
}

/// The URL of the QUERY endpoint `name` of the instance at `base`.
pub open spec fn query_url_of(base: Seq<char>, name: Seq<char>) -> Seq<char> {
    base + "/query/"@ + name
}

/// Minimal typed client for a HelixDB instance.
///
/// Constructed against a base URL (default `http://localhost:6969` for
/// `helix push dev`) and reuses one underlying `reqwest::Client` across every
/// QUERY call so the connection pool stays warm.
#[derive(Debug)]
pub struct HelixClient {
    base_url: String,
    http: reqwest::Client,
}

/// `base` with one trailing `/` removed, if it ends with one.
fn strip_slash(base: String) -> (r: String)
    ensures
        r@ == strip_trailing_slash(base@),
{
    let n = base.as_str().unicode_len();
    if n > 0 && base.as_str().get_char(n - 1) == '/' {
        base.as_str().substring_char(0, n - 1).to_owned()
    } else {
        base
    }
}

impl HelixClient {
    /// The base URL of this client, as a sequence of characters.
    pub closed spec fn spec_base_url(&self) -> Seq<char> {
        self.base_url@
    }

    /// The HTTP client (connection pool) that this client carries its calls on.
    pub closed spec fn spec_http(&self) -> reqwest::Client {
        self.http
    }

    /// Build a client pointed at a HelixDB instance.
    ///
    /// Strips a trailing `/` so concatenation with `/query/<name>` is safe
    /// regardless of how the caller spelled the URL.
    ///
    /// The contract speaks of the base URL only where the conversion of `S`
    /// into a `String` has a specification; vstd gives none for `&str` or
    /// `String`. [`HelixClient::from_url`], which this calls with the converted
    /// string, states the base URL exactly.
    pub fn new<S: Into<String>>(base_url: S) -> (client: HelixClient)
        ensures
            S::obeys_into_spec() ==> client.spec_base_url() == strip_trailing_slash(
                IntoSpec::<String>::into_spec(base_url)@,
            ),
    {
        let base: String = base_url.into();
        HelixClient::from_url(base)
    }

    /// Build a client pointed at the instance at `base_url`, with a trailing
    /// `/` stripped.
    pub fn from_url(base_url: String) -> (client: HelixClient)
        ensures
            client.spec_base_url() == strip_trailing_slash(base_url@),
    {
        HelixClient { base_url: strip_slash(base_url), http: new_http_client() }
    }

    /// Base URL the client is talking to (with any trailing slash stripped).
    pub fn base_url(&self) -> (url: &str)
        ensures
            url@ == self.spec_base_url(),
    {
        self.base_url.as_str()
    }

    /// The HTTP client that carries the calls of this client.
    pub fn http(&self) -> (http: &reqwest::Client)
        ensures
            *http == self.spec_http(),
    {
        &self.http
    }

    /// The URL that a call of the QUERY `name` is POSTed to:
    /// `<base_url>/query/<name>`.
    pub fn query_url(&self, name: &str) -> (url: String)
        ensures
            url@ == query_url_of(self.spec_base_url(), name@),
    {
        let mut url = self.base_url.clone();
        url.append("/query/");
        url.append(name);
        url
    }

    /// The URL and parameters of a call of `listTopFilms(genre, limit)`.
    pub fn list_top_films_request(&self, genre: &str, limit: i64) -> (req: (
        String,
        ListTopFilmsParams,
    ))
        ensures
            req.0@ == query_url_of(self.spec_base_url(), "listTopFilms"@),
            req.1.genre@ == genre@,
            req.1.limit == limit,
    {
        (self.query_url("listTopFilms"), ListTopFilmsParams::new(genre, limit))
    }
}

impl Clone for HelixClient {
    /// A client for the same base URL, sharing the connection pool.
    fn clone(&self) -> (c: HelixClient)
        ensures
            c.spec_base_url() == self.spec_base_url(),
            c.spec_http() == self.spec_http(),
    {
        HelixClient { base_url: self.base_url.clone(), http: clone_http_client(&self.http) }
    }
}

/// Stripping makes the base URL insensitive to one trailing `/`: for a URL
/// `s` that does not end with `/`, `s` and `s/` give the same base URL, `s`
/// itself, and so the same endpoint URLs.
pub proof fn law_trailing_slash_insensitive(s: Seq<char>, name: Seq<char>)
    requires
        s.len() == 0 || s.last() != '/',
    ensures
        strip_trailing_slash(s.push('/')) == s,
        strip_trailing_slash(s) == s,
        query_url_of(strip_trailing_slash(s.push('/')), name) == query_url_of(s, name),
{
    assert(s.push('/').drop_last() =~= s);
}

/// The URL of the QUERY `name` at `base` is `base`, then the seven characters
/// `/query/`, then all of `name`: nothing of either is cut or changed.
pub proof fn law_query_url_parts(base: Seq<char>, name: Seq<char>)
    ensures
        query_url_of(base, name).len() == base.len() + 7 + name.len(),
        query_url_of(base, name).subrange(0, base.len() as int) == base,
        query_url_of(base, name).subrange(base.len() as int, (base.len() + 7) as int) == seq![
            '/',
            'q',
            'u',
            'e',
            'r',
            'y',
            '/',
        ],
        query_url_of(base, name).subrange((base.len() + 7) as int, (base.len() + 7 + name.len()) as int) == name,
{
    reveal_strlit("/query/");
    let url = query_url_of(base, name);
    assert(url.subrange(0, base.len() as int) =~= base);
    assert(url.subrange(base.len() as int, (base.len() + 7) as int) =~= seq![
        '/',
        'q',
        'u',
        'e',
        'r',
        'y',
        '/',
    ]);
    assert(url.subrange((base.len() + 7) as int, (base.len() + 7 + name.len()) as int) =~= name);
}

/// Different QUERY names at one base URL have different URLs.
pub proof fn law_query_url_distinguishes_names(base: Seq<char>, a: Seq<char>, b: Seq<char>)
    requires
        query_url_of(base, a) == query_url_of(base, b),
    ensures
        a == b,
{
    law_query_url_parts(base, a);
    law_query_url_parts(base, b);
}

} // verus!
