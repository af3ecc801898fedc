use http_client::client::{Client, LIB_USER_AGENT};
use http_client::error::HttpError;
use http_client::json::JsonParser;
use http_client::message::{find_header, put_header, Header, Method};
use http_client::text::{decimal_string, eq_folded, find_folded, parse_usize, trim_bounds};
use http_client::transport::{choose_transport, select_transport, Transport};
use http_client::url::Endpoint;

#[test]
fn address_without_scheme() {
    let e = Endpoint::parse("localhost:8080/Video.mp4").unwrap();
    assert_eq!(e.scheme, "http");
    assert_eq!(e.host, "localhost");
    assert_eq!(e.port, 8080);
    assert_eq!(e.path, "/Video.mp4");
    assert!(!e.is_secure());
}

#[test]
fn address_with_secure_scheme() {
    let e = Endpoint::parse("HTTPS://example.com").unwrap();
    assert_eq!(e.host, "example.com");
    assert_eq!(e.port, 443);
    assert_eq!(e.path, "/");
    assert!(e.is_secure());
    let e = Endpoint::parse("http://example.com/a/b?c=d").unwrap();
    assert_eq!(e.port, 80);
    assert_eq!(e.path, "/a/b?c=d");
}

#[test]
fn malformed_addresses() {
    assert_eq!(Endpoint::parse("http://:80/x").unwrap_err(), HttpError::InvalidUrl("http://:80/x".to_string()));
    assert!(Endpoint::parse("host:99999/").is_err());
    assert!(Endpoint::parse("host:port/").is_err());
    assert!(Endpoint::parse("").is_err());
}

#[test]
fn client_requests_carry_agent_and_host() {
    let c = Client::new();
    let r = c.get("localhost:8080/Video.mp4").unwrap();
    let q = r.request();
    assert_eq!(q.method, Method::Get);
    assert_eq!(q.path, "/Video.mp4");
    assert_eq!(q.headers[0].name, "User-Agent");
    assert_eq!(q.headers[0].value, LIB_USER_AGENT);
    assert_eq!(q.headers[1].name, "Host");
    assert_eq!(q.headers[1].value, "localhost");
    assert_eq!(c.patch("h/").unwrap().request().method, Method::Patch);
    assert_eq!(c.options("h/").unwrap().request().method, Method::Options);
    assert_eq!(c.get("://").err(), Some(HttpError::InvalidUrl("://".to_string())));
    assert_eq!(c.post(":1").err(), Some(HttpError::ParseError(":1".to_string())));
}

#[test]
fn form_data_builds_encoded_body() {
    let r = Client::new()
        .post("localhost:8080/login_action")
        .unwrap()
        .form_data("email", "test@mail.com")
        .form_data("password", "password");
    let q = r.request();
    assert_eq!(q.body, b"email=test@mail.com&password=password".to_vec());
    let i = find_header(&q.headers, "content-type").unwrap();
    assert_eq!(q.headers[i].value, "application/x-www-form-urlencoded");
    let r = Client::new().put("h/").unwrap().body(b"ab").body(b"c");
    assert_eq!(r.request().body, b"abc".to_vec());
}

#[test]
fn later_header_overwrites_same_name() {
    let r = Client::new().get("h/").unwrap().header("X-Key", "1").header("x-key", "2");
    let q = r.request();
    assert_eq!(q.headers.len(), 3);
    assert_eq!(q.headers[2].name, "X-Key");
    assert_eq!(q.headers[2].value, "2");
    let mut hs: Vec<Header> = Vec::new();
    put_header(&mut hs, "Range", "a".to_string());
    put_header(&mut hs, "RANGE", "b".to_string());
    assert_eq!(hs.len(), 1);
    assert_eq!(hs[0].value, "b");
}

#[test]
fn transport_selection() {
    let plain = Endpoint::parse("example.com/").unwrap();
    assert_eq!(select_transport(&plain), Ok(Transport::Plain));
    let secure = Endpoint::parse("https://example.com/").unwrap();
    assert_eq!(select_transport(&secure), Ok(Transport::Secure));
    let ip = Endpoint::parse("https://127.0.0.1:8443/").unwrap();
    assert_eq!(select_transport(&ip), Ok(Transport::Secure));
    let bad = Endpoint::parse("https://bad_host!/").unwrap();
    assert_eq!(select_transport(&bad), Err(HttpError::InvalidUrl("bad_host!".to_string())));
    assert_eq!(choose_transport(true, false, "h"), Err(HttpError::InvalidUrl("h".to_string())));
    assert_eq!(choose_transport(false, false, "h"), Ok(Transport::Plain));
}

#[test]
fn numbers_in_text() {
    assert_eq!(parse_usize(b"12345", 0, 5), Some(12345));
    assert_eq!(parse_usize(b"+7", 0, 2), Some(7));
    assert_eq!(parse_usize(b"+", 0, 1), None);
    assert_eq!(parse_usize(b"", 0, 0), None);
    assert_eq!(parse_usize(b"-1", 0, 2), None);
    assert_eq!(parse_usize(b"18446744073709551615", 0, 20), Some(usize::MAX));
    assert_eq!(parse_usize(b"18446744073709551616", 0, 20), None);
    assert_eq!(decimal_string(0), "0");
    assert_eq!(decimal_string(1234567), "1234567");
    assert_eq!(decimal_string(usize::MAX), usize::MAX.to_string());
}

#[test]
fn text_folding_and_trimming() {
    assert!(eq_folded(b"Content-Range", b"content-range"));
    assert!(!eq_folded(b"Content-Range", b"content-rang"));
    assert!(find_folded(b"gzip, Chunked", b"chunk"));
    assert!(!find_folded(b"gzip", b"chunk"));
    assert_eq!(trim_bounds(b"  ab \t", 0, 6), (2, 4));
    assert_eq!(trim_bounds(b"   ", 0, 3).0, trim_bounds(b"   ", 0, 3).1);
}

#[test]
fn json_whitespace_is_skipped() {
    let data: Vec<char> = " \t\n\u{a0}\u{3000}{ }".chars().collect();
    assert_eq!(JsonParser::skip_whitespace(&data, 0), 5);
    assert_eq!(JsonParser::skip_whitespace(&data, 6), 7);
    assert_eq!(JsonParser::skip_whitespace(&data, 8), 8);
    assert_eq!(JsonParser::skip_whitespace(&data, 20), 20);
}

#[test]
fn error_accessors() {
    let e = HttpError::BadResponse(404, "Not Found".to_string());
    assert_eq!(e.status(), Some(404));
    assert_eq!(e.message(), "Not Found");
    assert_eq!(HttpError::ConnectionError("x".to_string()).status(), None);
    assert_eq!(e.to_text(), "404: Not Found");
    assert_eq!(HttpError::InvalidUrl("a b".to_string()).to_text(), "Invalid Url: `a b`");
    assert_eq!(HttpError::ConnectionError("reset".to_string()).to_text(), "Connection error: `reset`");
    assert_eq!(HttpError::ParseError("bad".to_string()).to_text(), "bad");
}
