use http::{HeaderMap, HeaderValue};
use sshx_server::classifier::{classify, select, Branch};

fn header_map(pairs: &[(&'static str, &'static str)]) -> HeaderMap<HeaderValue> {
    let mut map = HeaderMap::new();
    for (name, value) in pairs {
        map.append(*name, HeaderValue::from_static(value));
    }
    map
}

#[test]
fn select_forwarded_http_is_redirect() {
    assert_eq!(select(Some(b"http"), None), Branch::Redirect);
}

#[test]
fn select_forwarded_http_wins_over_grpc() {
    assert_eq!(select(Some(b"http"), Some(b"application/grpc")), Branch::Redirect);
    assert_eq!(select(Some(b"http"), Some(b"text/html")), Branch::Redirect);
}

#[test]
fn select_grpc_without_marker_is_rpc() {
    assert_eq!(select(None, Some(b"application/grpc")), Branch::Rpc);
}

#[test]
fn select_grpc_behind_https_proxy_is_rpc() {
    assert_eq!(select(Some(b"https"), Some(b"application/grpc")), Branch::Rpc);
}

#[test]
fn select_nothing_is_web() {
    assert_eq!(select(None, None), Branch::Web);
}

#[test]
fn select_other_content_is_web() {
    assert_eq!(select(None, Some(b"text/html")), Branch::Web);
    assert_eq!(select(Some(b"https"), Some(b"application/json")), Branch::Web);
}

#[test]
fn select_marker_is_case_sensitive() {
    assert_eq!(select(Some(b"HTTP"), None), Branch::Web);
    assert_eq!(select(Some(b"Http"), Some(b"application/grpc")), Branch::Rpc);
}

#[test]
fn select_marker_is_exact() {
    assert_eq!(select(Some(b"http "), None), Branch::Web);
    assert_eq!(select(Some(b"htt"), None), Branch::Web);
    assert_eq!(select(Some(b""), None), Branch::Web);
    assert_eq!(select(Some(b"http,https"), None), Branch::Web);
}

#[test]
fn select_content_type_is_exact() {
    assert_eq!(select(None, Some(b"application/grpc+proto")), Branch::Web);
    assert_eq!(select(None, Some(b"application/grp")), Branch::Web);
    assert_eq!(select(None, Some(b"Application/Grpc")), Branch::Web);
    assert_eq!(select(None, Some(b"application/grpc; charset=utf-8")), Branch::Web);
}

#[test]
fn select_takes_bytes_that_are_no_text() {
    assert_eq!(select(Some(&[0xff, 0xfe]), Some(&[0x00])), Branch::Web);
    assert_eq!(select(Some(&[0xff]), Some(b"application/grpc")), Branch::Rpc);
}

#[test]
fn classify_forwarded_http_is_redirect() {
    let map = header_map(&[("x-forwarded-proto", "http")]);
    assert_eq!(classify(&map), Branch::Redirect);
}

#[test]
fn classify_forwarded_http_wins_whatever_else_is_there() {
    let map = header_map(&[
        ("content-type", "application/grpc"),
        ("accept", "*/*"),
        ("host", "example.com"),
        ("x-forwarded-proto", "http"),
        ("te", "trailers"),
    ]);
    assert_eq!(classify(&map), Branch::Redirect);
}

#[test]
fn classify_grpc_is_rpc() {
    let map = header_map(&[("content-type", "application/grpc"), ("te", "trailers")]);
    assert_eq!(classify(&map), Branch::Rpc);
}

#[test]
fn classify_grpc_behind_https_proxy_is_rpc() {
    let map = header_map(&[("x-forwarded-proto", "https"), ("content-type", "application/grpc")]);
    assert_eq!(classify(&map), Branch::Rpc);
}

#[test]
fn classify_empty_headers_is_web() {
    assert_eq!(classify(&HeaderMap::new()), Branch::Web);
}

#[test]
fn classify_websocket_upgrade_is_web() {
    let map = header_map(&[
        ("host", "example.com"),
        ("upgrade", "websocket"),
        ("connection", "Upgrade"),
        ("x-forwarded-proto", "https"),
    ]);
    assert_eq!(classify(&map), Branch::Web);
}

#[test]
fn classify_reads_the_named_headers_only() {
    let map = header_map(&[("x-forwarded-protocol", "http"), ("content-types", "application/grpc")]);
    assert_eq!(classify(&map), Branch::Web);
    let swapped = header_map(&[("content-type", "http"), ("x-forwarded-proto", "application/grpc")]);
    assert_eq!(classify(&swapped), Branch::Web);
}

#[test]
fn classify_takes_the_first_of_repeated_headers() {
    let first_http = header_map(&[("x-forwarded-proto", "http"), ("x-forwarded-proto", "https")]);
    assert_eq!(classify(&first_http), Branch::Redirect);
    let first_https = header_map(&[("x-forwarded-proto", "https"), ("x-forwarded-proto", "http")]);
    assert_eq!(classify(&first_https), Branch::Web);
}

#[test]
fn classify_is_the_same_on_every_call() {
    let map = header_map(&[("content-type", "application/grpc")]);
    assert_eq!(classify(&map), classify(&map));
    assert_eq!(classify(&map), classify(&map.clone()));
}

#[test]
fn branch_index_follows_service_order() {
    assert_eq!(Branch::Web.index(), 0);
    assert_eq!(Branch::Rpc.index(), 1);
    assert_eq!(Branch::Redirect.index(), 2);
}
