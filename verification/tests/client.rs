use helix_client::HelixClient;

#[test]
fn new_strips_trailing_slash() {
    let client = HelixClient::new("http://localhost:6969/");
    assert_eq!(client.base_url(), "http://localhost:6969");
}

#[test]
fn new_preserves_url_without_trailing_slash() {
    let client = HelixClient::new("http://localhost:6969");
    assert_eq!(client.base_url(), "http://localhost:6969");
}

#[test]
fn new_handles_owned_string() {
    let url = String::from("http://localhost:6969/");
    let client = HelixClient::new(url);
    assert_eq!(client.base_url(), "http://localhost:6969");
}

#[test]
fn client_is_clone() {
    let client = HelixClient::new("http://localhost:6969");
    let cloned = client.clone();
    assert_eq!(cloned.base_url(), "http://localhost:6969");
}

#[test]
fn new_strips_only_one_trailing_slash() {
    let client = HelixClient::new("http://localhost:6969//");
    assert_eq!(client.base_url(), "http://localhost:6969/");
}

#[test]
fn new_keeps_empty_url_empty() {
    let client = HelixClient::new("");
    assert_eq!(client.base_url(), "");
    let client = HelixClient::new("/");
    assert_eq!(client.base_url(), "");
}

#[test]
fn from_url_strips_trailing_slash() {
    let client = HelixClient::from_url(String::from("http://h:1/"));
    assert_eq!(client.base_url(), "http://h:1");
}

#[test]
fn query_url_joins_base_and_name() {
    let client = HelixClient::new("http://localhost:6969/");
    assert_eq!(client.query_url("countUsers"), "http://localhost:6969/query/countUsers");
}

#[test]
fn trailing_slash_does_not_change_query_url() {
    let with = HelixClient::new("http://localhost:6969/");
    let without = HelixClient::new("http://localhost:6969");
    assert_eq!(with.query_url("getUser"), without.query_url("getUser"));
}

#[test]
fn list_top_films_request_targets_endpoint_with_params() {
    let client = HelixClient::new("http://localhost:6969");
    let (url, params) = client.list_top_films_request("Comedy", 2);
    assert_eq!(url, "http://localhost:6969/query/listTopFilms");
    assert_eq!(params.genre, "Comedy");
    assert_eq!(params.limit, 2);
}
