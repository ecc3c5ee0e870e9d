use std::str::FromStr;

use actix_http::Uri;
use https_redirect::response::redirect_for;
use https_redirect::uri::{
    is_well_formed_host, is_well_formed_path, is_well_formed_query, MAX_TARGET_LEN,
};
use https_redirect::{InvalidUriError, RequestContext, Scheme};

fn http(host: &str, path: &str, query: Option<&str>) -> RequestContext {
    RequestContext {
        scheme: Some(Scheme::Http),
        host: host.to_string(),
        path: path.to_string(),
        query: query.map(|q| q.to_string()),
    }
}

fn location(host: &str, path: &str, query: Option<&str>) -> Result<String, InvalidUriError> {
    redirect_for(&http(host, path, query)).map(|response| response.location)
}

#[test]
fn scheme_text() {
    assert_eq!(Scheme::Http.as_str(), "http");
    assert_eq!(Scheme::Https.as_str(), "https");
}

#[test]
fn location_is_scheme_host_path_query() {
    assert_eq!(location("example.com", "/", None), Ok("https://example.com/".to_string()));
    assert_eq!(location("example.com", "/foo", None), Ok("https://example.com/foo".to_string()));
    assert_eq!(
        location("example.com", "/foo", Some("x=1")),
        Ok("https://example.com/foo?x=1".to_string())
    );
    assert_eq!(
        location("example.com:8080", "/a/b/", Some("x=1&y=2")),
        Ok("https://example.com:8080/a/b/?x=1&y=2".to_string())
    );
}

#[test]
fn empty_query_keeps_its_question_mark() {
    assert_eq!(location("example.com", "/foo", Some("")), Ok("https://example.com/foo?".to_string()));
}

#[test]
fn query_may_hold_question_marks() {
    assert_eq!(
        location("example.com", "/foo", Some("a?b=c?d")),
        Ok("https://example.com/foo?a?b=c?d".to_string())
    );
}

#[test]
fn host_keeps_its_case_port_and_user() {
    assert_eq!(location("Example.COM", "/", None), Ok("https://Example.COM/".to_string()));
    assert_eq!(location("[::1]:8443", "/x", None), Ok("https://[::1]:8443/x".to_string()));
    assert_eq!(
        location("user:pw@example.com", "/x", None),
        Ok("https://user:pw@example.com/x".to_string())
    );
    assert_eq!(location("127.0.0.1", "/x", None), Ok("https://127.0.0.1/x".to_string()));
}

#[test]
fn percent_encoded_path_is_kept() {
    assert_eq!(
        location("example.com", "/a%20b/%E2%9C%93", Some("q=%2F")),
        Ok("https://example.com/a%20b/%E2%9C%93?q=%2F".to_string())
    );
}

#[test]
fn location_reads_back_as_the_same_parts() {
    let cases = vec![
        ("example.com", "/", None),
        ("example.com", "/foo", Some("x=1")),
        ("example.com:9000", "/a/b/c", Some("")),
        ("[2001:db8::1]", "/p", Some("a=b&c=d")),
        ("localhost", "/*", Some("a?b")),
    ];
    for (host, path, query) in cases {
        let text = location(host, path, query).unwrap();
        let uri = Uri::from_str(&text).unwrap();
        assert_eq!(uri.scheme_str(), Some("https"));
        assert_eq!(uri.authority().map(|a| a.as_str()), Some(host));
        assert_eq!(uri.path(), path);
        assert_eq!(uri.query(), query);
    }
}

#[test]
fn malformed_host_is_refused() {
    assert_eq!(location("", "/", None), Err(InvalidUriError::MalformedHost));
    assert_eq!(location("example.com/evil", "/", None), Err(InvalidUriError::MalformedHost));
    assert_eq!(location("example.com?x", "/", None), Err(InvalidUriError::MalformedHost));
    assert_eq!(location("example.com#x", "/", None), Err(InvalidUriError::MalformedHost));
    assert_eq!(location("ex\u{e4}mple.com", "/", None), Err(InvalidUriError::MalformedHost));
}

#[test]
fn malformed_path_is_refused() {
    assert_eq!(location("example.com", "", None), Err(InvalidUriError::MalformedPath));
    assert_eq!(location("example.com", "foo", None), Err(InvalidUriError::MalformedPath));
    assert_eq!(location("example.com", "*", None), Err(InvalidUriError::MalformedPath));
    assert_eq!(location("example.com", "/a?b", None), Err(InvalidUriError::MalformedPath));
    assert_eq!(location("example.com", "/a#b", None), Err(InvalidUriError::MalformedPath));
    assert_eq!(location("example.com", "/caf\u{e9}", None), Err(InvalidUriError::MalformedPath));
}

#[test]
fn malformed_query_is_refused() {
    assert_eq!(location("example.com", "/", Some("a#b")), Err(InvalidUriError::MalformedQuery));
    assert_eq!(location("example.com", "/", Some("#")), Err(InvalidUriError::MalformedQuery));
    assert_eq!(location("example.com", "/", Some("\u{fc}")), Err(InvalidUriError::MalformedQuery));
}

#[test]
fn checks_come_in_order() {
    assert_eq!(location("", "", Some("#")), Err(InvalidUriError::MalformedHost));
    assert_eq!(location("example.com", "", Some("#")), Err(InvalidUriError::MalformedPath));
    let long = format!("/{}", "a".repeat(MAX_TARGET_LEN));
    assert_eq!(location("example.com", &long, Some("#")), Err(InvalidUriError::MalformedQuery));
    assert_eq!(location("exa mple.com", &long, None), Err(InvalidUriError::TooLong));
}

#[test]
fn target_length_is_bounded() {
    assert_eq!(MAX_TARGET_LEN, 65534);
    let longest = format!("/{}", "a".repeat(MAX_TARGET_LEN - 1));
    assert_eq!(longest.len(), 65534);
    assert_eq!(location("example.com", &longest, None), Ok(format!("https://example.com{}", longest)));
    let too_long = format!("/{}", "a".repeat(MAX_TARGET_LEN));
    assert_eq!(location("example.com", &too_long, None), Err(InvalidUriError::TooLong));

    let path = format!("/{}", "a".repeat(65000));
    let query = "b".repeat(MAX_TARGET_LEN - path.len() - 1);
    assert_eq!(
        location("example.com", &path, Some(&query)),
        Ok(format!("https://example.com{}?{}", path, query))
    );
    let query = "b".repeat(MAX_TARGET_LEN - path.len());
    assert_eq!(location("example.com", &path, Some(&query)), Err(InvalidUriError::TooLong));
    assert_eq!(location("example.com", &longest, Some("")), Err(InvalidUriError::TooLong));
}

#[test]
fn uri_library_has_the_last_word() {
    assert_eq!(location("exa mple.com", "/", None), Err(InvalidUriError::Rejected));
    assert_eq!(location("example.com:80:80", "/", None), Err(InvalidUriError::Rejected));
    assert_eq!(location("[::1", "/", None), Err(InvalidUriError::Rejected));
    assert_eq!(location("user@", "/", None), Err(InvalidUriError::Rejected));
    assert_eq!(location("example.com", "/a b", None), Err(InvalidUriError::Rejected));
    assert_eq!(location("example.com", "/a", Some("b c")), Err(InvalidUriError::Rejected));
    assert_eq!(location("example.com", "/a\u{7f}", None), Err(InvalidUriError::Rejected));
}

#[test]
fn every_error_is_a_server_error() {
    let errors = vec![
        InvalidUriError::MalformedHost,
        InvalidUriError::MalformedPath,
        InvalidUriError::MalformedQuery,
        InvalidUriError::TooLong,
        InvalidUriError::Rejected,
    ];
    for e in errors {
        assert_eq!(e.status(), 500);
    }
}

#[test]
fn well_formed_host() {
    assert!(is_well_formed_host("example.com"));
    assert!(is_well_formed_host("exa mple.com"));
    assert!(is_well_formed_host("[::1]:80"));
    assert!(!is_well_formed_host(""));
    assert!(!is_well_formed_host("a/b"));
    assert!(!is_well_formed_host("a?b"));
    assert!(!is_well_formed_host("a#b"));
    assert!(!is_well_formed_host("\u{e4}"));
}

#[test]
fn well_formed_path() {
    assert!(is_well_formed_path("/"));
    assert!(is_well_formed_path("/a/b"));
    assert!(is_well_formed_path("//"));
    assert!(!is_well_formed_path(""));
    assert!(!is_well_formed_path("a"));
    assert!(!is_well_formed_path("a/"));
    assert!(!is_well_formed_path("/a?"));
    assert!(!is_well_formed_path("/#"));
    assert!(!is_well_formed_path("/\u{e4}"));
}

#[test]
fn well_formed_query() {
    assert!(is_well_formed_query(""));
    assert!(is_well_formed_query("a=b&c=d"));
    assert!(is_well_formed_query("a?b/c"));
    assert!(!is_well_formed_query("a#"));
    assert!(!is_well_formed_query("\u{e4}"));
}
