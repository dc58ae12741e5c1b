//! Which connections can be used again.
use monoio_http_client::client::reuse::{eq_ignore_ascii_case, is_reuseable, reuseable_after};
use monoio_http_client::common::Version;

fn headers(values: &[&'static str]) -> http::HeaderMap {
    let mut headers = http::HeaderMap::new();
    for value in values {
        headers.append("connection", http::HeaderValue::from_static(value));
    }
    headers
}

#[test]
fn texts_are_compared_without_case() {
    assert!(eq_ignore_ascii_case(b"Close", b"cLOSE"));
    assert!(eq_ignore_ascii_case(b"", b""));
    assert!(!eq_ignore_ascii_case(b"close", b"closed"));
    assert!(!eq_ignore_ascii_case(b"close", b"clone"));
    assert!(!eq_ignore_ascii_case(b"@", b"`"));
    assert!(!eq_ignore_ascii_case(b"[", b"{"));
    assert!(eq_ignore_ascii_case(b"AZ", b"az"));
}

#[test]
fn close_in_any_case_ends_a_connection() {
    assert!(!is_reuseable(Some(b"close"), Version::Http11));
    assert!(!is_reuseable(Some(b"CLOSE"), Version::H2));
    assert!(!is_reuseable(Some(b"Close"), Version::Http10));
    assert!(is_reuseable(Some(b"keep-alive"), Version::Http10));
    assert!(is_reuseable(Some(b" close"), Version::Http11));
}

#[test]
fn only_http10_closes_by_itself() {
    assert!(!is_reuseable(None, Version::Http10));
    assert!(is_reuseable(None, Version::Http09));
    assert!(is_reuseable(None, Version::Http11));
    assert!(is_reuseable(None, Version::H2));
    assert!(is_reuseable(None, Version::H3));
}

#[test]
fn the_first_connection_header_counts() {
    assert!(!reuseable_after(&headers(&["close", "keep-alive"]), Version::Http11));
    assert!(reuseable_after(&headers(&["keep-alive", "close"]), Version::Http11));
    assert!(reuseable_after(&headers(&[]), Version::Http11));
    assert!(!reuseable_after(&headers(&[]), Version::Http10));
    assert!(reuseable_after(&headers(&["keep-alive"]), Version::Http10));
}
