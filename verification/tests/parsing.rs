use webroute::request::Headers;
use webroute::request::Method;
use webroute::request::ParseError;
use webroute::request::Request;

fn lines(v: &[&str]) -> Vec<String> {
    v.iter().map(|s| s.to_string()).collect()
}

#[test]
fn parse_minimal_get() {
    let req = Request::parse(&lines(&["GET / HTTP/1.1", ""])).unwrap();
    assert_eq!(req.method(), Method::GET);
    assert_eq!(req.target(), "/");
    assert_eq!(req.version(), "HTTP/1.1");
    assert_eq!(req.headers().len(), 0);
    assert!(req.body().is_none());
}

#[test]
fn parse_unknown_method_fails() {
    let r = Request::parse(&lines(&["BOGUS / HTTP/1.1", ""]));
    assert_eq!(r.unwrap_err(), ParseError::UnknownMethod);
}

#[test]
fn parse_two_tokens_fails() {
    let r = Request::parse(&lines(&["GET /"]));
    assert_eq!(r.unwrap_err(), ParseError::BadStartLine);
}

#[test]
fn parse_four_tokens_fails() {
    let r = Request::parse(&lines(&["GET / HTTP/1.1 extra"]));
    assert_eq!(r.unwrap_err(), ParseError::BadStartLine);
}

#[test]
fn parse_empty_input_fails() {
    let r = Request::parse(&lines(&[]));
    assert_eq!(r.unwrap_err(), ParseError::BadStartLine);
}

#[test]
fn parse_relative_target_fails() {
    let r = Request::parse(&lines(&["GET index.html HTTP/1.1"]));
    assert_eq!(r.unwrap_err(), ParseError::TargetNotAbsolute);
}

#[test]
fn parse_bad_version_fails() {
    let r = Request::parse(&lines(&["GET / FTP/1.0"]));
    assert_eq!(r.unwrap_err(), ParseError::BadVersion);
}

#[test]
fn parse_header_without_colon_fails() {
    let r = Request::parse(&lines(&["GET / HTTP/1.1", "not a header"]));
    assert_eq!(r.unwrap_err(), ParseError::BadHeader);
}

#[test]
fn parse_percent_decodes_target() {
    let req = Request::parse(&lines(&["GET /a%20b HTTP/1.1"])).unwrap();
    assert_eq!(req.target(), "/a b");
}

#[test]
fn parse_undecodable_target_fails() {
    let r = Request::parse(&lines(&["GET /%ff HTTP/1.1"]));
    assert_eq!(r.unwrap_err(), ParseError::TargetNotDecodable);
}

#[test]
fn parse_lowercases_and_trims_headers() {
    let req = Request::parse(&lines(&["GET / HTTP/1.1", "HOST:  example.com  "])).unwrap();
    assert_eq!(req.headers().get("host").unwrap(), "example.com");
    assert!(req.headers().get("HOST").is_none());
}

#[test]
fn parse_last_header_write_wins() {
    let req =
        Request::parse(&lines(&["GET / HTTP/1.1", "x-k: one", "X-K: two"])).unwrap();
    assert_eq!(req.headers().get("x-k").unwrap(), "two");
    assert_eq!(req.headers().len(), 1);
}

#[test]
fn parse_body_joins_nonblank_lines() {
    let req = Request::parse(&lines(&["POST / HTTP/1.1", "a: b", "", "hello", "world"]))
        .unwrap();
    assert_eq!(req.method(), Method::POST);
    assert_eq!(req.body().unwrap(), "helloworld");
}

#[test]
fn parse_no_body_when_nothing_follows_blank() {
    let req = Request::parse(&lines(&["GET / HTTP/1.1", "a: b", "", "  "])).unwrap();
    assert!(req.body().is_none());
}

#[test]
fn method_token_round_trip() {
    let all = [
        Method::GET,
        Method::HEAD,
        Method::PUT,
        Method::POST,
        Method::DELETE,
        Method::CONNECT,
        Method::OPTIONS,
        Method::TRACE,
        Method::PATCH,
    ];
    for m in all {
        assert_eq!(Method::parse_token(m.as_str()), Some(m));
    }
    assert_eq!(Method::parse_token("get"), None);
    assert!(Method::GET.is_get());
    assert!(!Method::POST.is_get());
}

#[test]
fn target_as_path_strips_leading_slashes() {
    let req = Request::parse(&lines(&["GET //static/a.html HTTP/1.1"])).unwrap();
    assert_eq!(req.target_as_path(), "static/a.html");
}

#[test]
fn headers_insert_replaces() {
    let mut h = Headers::new();
    h.insert("a".to_string(), "1".to_string());
    h.insert("b".to_string(), "2".to_string());
    h.insert("a".to_string(), "3".to_string());
    assert_eq!(h.len(), 2);
    assert_eq!(h.get("a").unwrap(), "3");
    assert_eq!(h.get("b").unwrap(), "2");
    assert!(h.get("c").is_none());
}

#[test]
fn request_as_string_lists_headers_and_body() {
    let req = Request::parse(&lines(&["POST /x HTTP/1.1", "A: 1", "b: 2", "", "hi"]))
        .unwrap();
    assert_eq!(req.as_string(), "POST /x HTTP/1.1\na: 1\nb: 2\nhi");
}
