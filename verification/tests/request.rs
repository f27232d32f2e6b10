use http_adapter::request::{
    incoming_request_authority, incoming_request_method, incoming_request_path,
    incoming_request_query, incoming_request_scheme, text_is,
};
use http_adapter::state::State;
use http_adapter::types::{HostError, Method, Scheme};
use http_adapter::uri::UriParts;

fn method(text: &str) -> Method {
    incoming_request_method(text.to_string())
}

#[test]
fn standard_methods_are_recognised() {
    assert_eq!(method("GET"), Method::Get);
    assert_eq!(method("POST"), Method::Post);
    assert_eq!(method("PUT"), Method::Put);
    assert_eq!(method("DELETE"), Method::Delete);
    assert_eq!(method("HEAD"), Method::Head);
    assert_eq!(method("OPTIONS"), Method::Options);
    assert_eq!(method("PATCH"), Method::Patch);
    assert_eq!(method("TRACE"), Method::Trace);
    assert_eq!(method("CONNECT"), Method::Connect);
}

#[test]
fn other_methods_keep_their_text() {
    assert_eq!(method("PURGE"), Method::Other("PURGE".to_string()));
    assert_eq!(method("get"), Method::Other("get".to_string()));
    assert_eq!(method("Get"), Method::Other("Get".to_string()));
    assert_eq!(method(""), Method::Other(String::new()));
    assert_eq!(method("GET "), Method::Other("GET ".to_string()));
}

#[test]
fn path_is_read_from_the_parsed_uri() {
    assert_eq!(
        incoming_request_path("https://example.com/api/versions?page=2"),
        Some("/api/versions".to_string())
    );
    assert_eq!(incoming_request_path("https://example.com"), Some("/".to_string()));
    assert_eq!(
        incoming_request_path("http://example.com/a/b#frag"),
        Some("/a/b".to_string())
    );
}

#[test]
fn path_of_an_unparseable_uri_is_none() {
    assert_eq!(incoming_request_path("/relative/only"), None);
    assert_eq!(incoming_request_path(""), None);
    assert_eq!(incoming_request_path("not a url"), None);
}

#[test]
fn query_is_empty_when_absent() {
    assert_eq!(
        incoming_request_query("https://example.com/products?page=2"),
        Some("page=2".to_string())
    );
    assert_eq!(incoming_request_query("https://example.com/products"), Some(String::new()));
    assert_eq!(incoming_request_query("https://example.com/products?"), Some(String::new()));
    assert_eq!(
        incoming_request_query("https://example.com/p?a=1&b=2#frag"),
        Some("a=1&b=2".to_string())
    );
    assert_eq!(incoming_request_query("no scheme here"), None);
}

#[test]
fn scheme_maps_http_and_https() {
    let uri = |text: &str| -> Result<String, HostError> { Ok(text.to_string()) };
    assert_eq!(incoming_request_scheme(&uri("http://example.com/")), Some(Scheme::Http));
    assert_eq!(incoming_request_scheme(&uri("https://example.com/")), Some(Scheme::Https));
    assert_eq!(incoming_request_scheme(&uri("HTTPS://example.com/")), Some(Scheme::Https));
    assert_eq!(
        incoming_request_scheme(&uri("ftp://example.com/file")),
        Some(Scheme::Other("ftp".to_string()))
    );
    assert_eq!(
        incoming_request_scheme(&uri("data:text/plain,Stuff")),
        Some(Scheme::Other("data".to_string()))
    );
}

#[test]
fn scheme_is_unknown_on_failure() {
    assert_eq!(incoming_request_scheme(&Ok("/just/a/path".to_string())), None);
    assert_eq!(incoming_request_scheme(&Ok(String::new())), None);
    assert_eq!(incoming_request_scheme(&Err(HostError {})), None);
}

#[test]
fn authority_is_the_host_or_empty() {
    assert_eq!(incoming_request_authority("https://example.com/a"), "example.com");
    assert_eq!(incoming_request_authority("https://EXAMPLE.com:8080/a"), "example.com");
    assert_eq!(incoming_request_authority("https://127.0.0.1/index.html"), "127.0.0.1");
    assert_eq!(incoming_request_authority("http://[::1]:80/"), "[::1]");
    assert_eq!(incoming_request_authority("data:text/plain,Stuff"), "");
    assert_eq!(incoming_request_authority("unix:/run/foo.socket"), "");
    assert_eq!(incoming_request_authority("/relative"), "");
    assert_eq!(incoming_request_authority(""), "");
}

#[test]
fn parts_answer_for_themselves() {
    let parts = UriParts {
        scheme: "https".to_string(),
        host: Some("example.org".to_string()),
        path: "/x".to_string(),
        query: Some("k=v".to_string()),
    };
    assert_eq!(parts.request_path(), "/x");
    assert_eq!(parts.request_query(), "k=v");
    assert_eq!(parts.request_scheme(), Scheme::Https);
    assert_eq!(parts.request_authority(), "example.org");

    let bare = UriParts {
        scheme: "gopher".to_string(),
        host: None,
        path: String::new(),
        query: None,
    };
    assert_eq!(bare.request_path(), "");
    assert_eq!(bare.request_query(), "");
    assert_eq!(bare.request_scheme(), Scheme::Other("gopher".to_string()));
    assert_eq!(bare.request_authority(), "");

    let plain = UriParts {
        scheme: "http".to_string(),
        host: None,
        path: "/".to_string(),
        query: None,
    };
    assert_eq!(plain.request_scheme(), Scheme::Http);
}

#[test]
fn request_headers_become_a_new_collection_each_time() {
    let mut state = State::new((1, 2));
    let report = vec![
        ("host".to_string(), Some("example.com".to_string())),
        ("x-empty".to_string(), None),
        ("accept".to_string(), Some("*/*".to_string())),
    ];
    let first = state.incoming_request_headers(report.clone());
    let second = state.incoming_request_headers(report);
    assert_ne!(first, second);
    let expected = vec![
        ("host".to_string(), "example.com".to_string()),
        ("x-empty".to_string(), String::new()),
        ("accept".to_string(), "*/*".to_string()),
    ];
    assert_eq!(state.fields_entries(first), expected);
    assert_eq!(state.fields_entries(second), expected);
    state.fields_delete(first, "host".to_string());
    assert_eq!(state.fields_entries(second), expected);
}

#[test]
fn consume_opens_a_stream_on_the_request_body() {
    let mut state = State::new((11, 22));
    assert_eq!(state.incoming_request(), (11, 22));
    let stream = state.incoming_request_consume(11);
    assert_eq!(stream, Ok(0));
    assert!(state.has_incoming_stream(0));
    let call = state.read(0, 100);
    assert_eq!(call, http_adapter::host::HostCall::BodyRead { body: 22, max_len: 100 });
}

#[test]
fn consume_twice_opens_two_streams() {
    let mut state = State::new((11, 22));
    let first = state.incoming_request_consume(11);
    let second = state.incoming_request_consume(11);
    assert_eq!(first, Ok(0));
    assert_eq!(second, Ok(1));
    assert!(state.has_incoming_stream(0));
    assert!(state.has_incoming_stream(1));
    assert_eq!(state.incoming_request(), (11, 22));
    assert_eq!(
        state.read(1, 7),
        http_adapter::host::HostCall::BodyRead { body: 22, max_len: 7 }
    );
}

#[test]
fn no_operation_on_the_request_changes_the_tables() {
    let mut state = State::new((11, 22));
    let h = state.new_fields(vec![]);
    state.drop_incoming_request(11);
    state.finish_outgoing_stream(5, None);
    state.finish_outgoing_stream(5, Some(h));
    assert!(state.has_fields(h));
    assert_eq!(state.incoming_request(), (11, 22));
    assert_eq!(state.response_outparam(), None);
}

#[test]
fn text_is_compares_exactly() {
    assert!(text_is(&"GET".to_string(), "GET"));
    assert!(!text_is(&"GET".to_string(), "get"));
    assert!(!text_is(&"GE".to_string(), "GET"));
    assert!(text_is(&String::new(), ""));
}
