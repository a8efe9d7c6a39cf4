use proto_tower::http1::headers::HeaderList;
use proto_tower::http1::layer::{is_protocol_upgrade, request_to_serve};
use proto_tower::http1::request_parser;
use proto_tower::http1::response_parser::parse_http1_response;
use proto_tower::http1::server_parser;
use proto_tower::http1::text::{bytes_equal, get_method, is_method, just_charset, prefix_equals};
use proto_tower::http1::{HTTP1Request, HTTTP1Response, Method, ProtoHttp1LayerError};

#[test]
fn can_parse_request() {
    let input = b"CONNECT /some/path?param=123&other=456 HTTP/1.1\r\nHost: localhost\r\n\r\nSome BODY";
    let res = server_parser::parse_request(input);
    let res = res.unwrap();
    let res = res.unwrap();
    assert_eq!(res.method, Method::CONNECT);
    assert_eq!(res.path, "/some/path?param=123&other=456");
    assert_eq!(res.body, b"Some BODY");
}

#[test]
fn parser_can_parse_request() {
    let input = b"CONNECT /some/path?param=123&other=456 HTTP/1.1\r\nHost: localhost\r\n\r\nSome BODY";
    let res = request_parser::parse_request(input);
    let res = res.unwrap();
    let res = res.unwrap();
    assert_eq!(res.method, Method::CONNECT);
    assert_eq!(res.path, "/some/path?param=123&other=456");
    assert_eq!(res.body, b"Some BODY");
}

#[test]
fn get_no_headers_no_body_request() {
    let input = b"GET / HTTP/1.1\r\n\r\n";
    let res = server_parser::parse_request(input);
    let res = res.unwrap();
    let res = res.unwrap();
    assert_eq!(res.method, Method::GET);
    assert_eq!(res.path, "/");
    assert_eq!(res.body, b"");
    assert_eq!(res.headers.len(), 0);
}

#[test]
fn server_parser_reads_headers() {
    let input = b"POST /submit HTTP/1.1\r\nHost: localhost\r\nX-Count: 2\r\n\r\nabc";
    let res = server_parser::parse_request(input).unwrap().unwrap();
    assert_eq!(res.method, Method::POST);
    assert_eq!(res.path, "/submit");
    assert_eq!(res.headers.len(), 2);
    assert_eq!(res.headers.get(b"host").map(|v| v.as_slice()), Some(&b"localhost"[..]));
    assert_eq!(res.headers.get(b"x-count").map(|v| v.as_slice()), Some(&b"2"[..]));
    assert_eq!(res.body, b"abc");
}

#[test]
fn server_parser_refuses_lowercase_method() {
    let res = server_parser::parse_request(b"get / HTTP/1.1\r\n\r\n");
    assert!(res.is_err());
}

#[test]
fn server_parser_needs_blank_line() {
    let res = server_parser::parse_request(b"GET / HTTP/1.1\r\nHost: x\r\n");
    assert!(res.is_err());
}

#[test]
fn server_parser_needs_http11() {
    let res = server_parser::parse_request(b"GET / HTTP/1.0\r\n\r\n");
    assert!(res.is_err());
}

#[test]
fn request_parser_reads_body_after_headers() {
    let res = request_parser::parse_request(b"GET /a HTTP/1.1\r\nHost: x\r\n\r\nbody").unwrap().unwrap();
    assert_eq!(res.method, Method::GET);
    assert_eq!(res.path, "/a");
    assert_eq!(res.headers.len(), 0);
    assert_eq!(res.body, b"body");
}

#[test]
fn method_helpers() {
    assert!(is_method(b"DELETE"));
    assert!(!is_method(b"Delete"));
    assert!(!is_method(b""));
    let (m, rest) = get_method(b"OPTIONS *").unwrap();
    assert_eq!(m, Method::OPTIONS);
    assert_eq!(rest, b" *");
    assert!(get_method(b"FETCH /").is_err());
    assert_eq!(Method::PATCH.as_bytes(), b"PATCH");
}

#[test]
fn byte_helpers() {
    assert!(just_charset(b"abcabc", b"abc"));
    assert!(!just_charset(b"abcd", b"abc"));
    assert!(just_charset(b"", b"abc"));
    assert!(prefix_equals(b"HTTP/1.1 200", b"HTTP/1.1"));
    assert!(!prefix_equals(b"HTTP", b"HTTP/1.1"));
    assert!(bytes_equal(b"same", b"same"));
    assert!(!bytes_equal(b"same", b"Same"));
}

#[test]
fn header_list_keeps_one_entry_per_name() {
    let mut headers = HeaderList::new();
    assert!(headers.is_empty());
    headers.insert(b"Host".to_vec(), b"a".to_vec());
    headers.insert(b"Accept".to_vec(), b"*/*".to_vec());
    headers.insert(b"Host".to_vec(), b"b".to_vec());
    assert_eq!(headers.len(), 2);
    assert!(headers.contains_key(b"Host"));
    assert!(!headers.contains_key(b"host"));
    assert_eq!(headers.get(b"Host").map(|v| v.as_slice()), Some(&b"b"[..]));
    assert_eq!(headers.entries()[0].name, b"Host".to_vec());
    assert_eq!(headers.entries()[1].name, b"Accept".to_vec());
}

#[test]
fn response_is_written_with_reason_and_headers() {
    let mut headers = HeaderList::new();
    headers.insert(b"content-length".to_vec(), b"2".to_vec());
    let response = HTTTP1Response { status: 200, headers, body: b"hi".to_vec() };
    let mut out = Vec::new();
    response.write_onto(&mut out);
    assert_eq!(out, b"HTTP/1.1 200 OK\r\ncontent-length: 2\r\n\r\nhi".to_vec());
}

#[test]
fn response_without_headers_or_body() {
    let response = HTTTP1Response { status: 200, headers: HeaderList::new(), body: Vec::new() };
    let mut out = Vec::new();
    response.write_onto(&mut out);
    assert_eq!(out, b"HTTP/1.1 200 OK\r\n\r\n".to_vec());
}

#[test]
fn response_with_unknown_status_has_fallback_reason() {
    let response = HTTTP1Response { status: 599, headers: HeaderList::new(), body: Vec::new() };
    let mut out = Vec::new();
    response.write_onto(&mut out);
    assert_eq!(out, b"HTTP/1.1 599 UNKNOWN REASON\r\n\r\n".to_vec());
}

#[test]
fn request_is_written_with_content_length() {
    let request = HTTP1Request { path: "/".to_string(), method: Method::GET, headers: HeaderList::new(), body: Vec::new() };
    let mut out = Vec::new();
    request.write_to(&mut out).unwrap();
    assert_eq!(out, b"GET / HTTP/1.1\r\nContent-Length: 0\r\n\r\n".to_vec());
}

#[test]
fn request_with_body_and_query() {
    let mut headers = HeaderList::new();
    headers.insert(b"Host".to_vec(), b"example".to_vec());
    let request = HTTP1Request {
        path: "/search?q=1".to_string(),
        method: Method::POST,
        headers,
        body: b"hello".to_vec(),
    };
    let mut out = Vec::new();
    request.write_to(&mut out).unwrap();
    assert_eq!(out, b"POST /search HTTP/1.1\r\nHost: example\r\nContent-Length: 5\r\n\r\nhello".to_vec());
}

#[test]
fn request_with_invalid_uri_is_refused() {
    let request = HTTP1Request { path: "not a uri".to_string(), method: Method::GET, headers: HeaderList::new(), body: Vec::new() };
    let mut out = Vec::new();
    assert!(request.write_to(&mut out).is_err());
    assert!(out.is_empty());
}

#[test]
fn response_parser_reads_status_headers_body() {
    let res = parse_http1_response(b"HTTP/1.1 404 Not Found\r\nContent-Length: 3\r\n\r\nabc").unwrap();
    assert_eq!(res.status, 404);
    assert_eq!(res.headers.len(), 1);
    assert_eq!(res.headers.get(b"content-length").map(|v| v.as_slice()), Some(&b"3"[..]));
    assert_eq!(res.body, b"abc");
}

#[test]
fn response_parser_errors() {
    assert_eq!(parse_http1_response(b"HTTP/1.1").err(), Some("Expected a space in response"));
    assert_eq!(parse_http1_response(b"HTTP/2 200 OK\r\n\r\n").err(), Some("Expected HTTP/1.1"));
    assert_eq!(parse_http1_response(b"HTTP/1.1 200 OK").err(), Some("Expected new line"));
    assert_eq!(parse_http1_response(b"HTTP/1.1 abc OK\r\n\r\n").err(), Some("Expected status code deserializable"));
    assert_eq!(
        parse_http1_response(b"HTTP/1.1 200 OK\r\nNoColon\r\n\r\n").err(),
        Some("Expected header name before colon space")
    );
}

#[test]
fn written_response_parses_back() {
    let mut headers = HeaderList::new();
    headers.insert(b"x-test".to_vec(), b"yes".to_vec());
    let response = HTTTP1Response { status: 201, headers, body: b"made".to_vec() };
    let mut out = Vec::new();
    response.write_onto(&mut out);
    let back = parse_http1_response(&out).unwrap();
    assert_eq!(back.status, 201);
    assert_eq!(back.headers.get(b"x-test").map(|v| v.as_slice()), Some(&b"yes"[..]));
    assert_eq!(back.body, b"made");
}

#[test]
fn upgrade_needs_both_headers() {
    let mut headers = HeaderList::new();
    headers.insert(b"upgrade".to_vec(), b"h2c".to_vec());
    assert!(!is_protocol_upgrade(&headers));
    headers.insert(b"connection".to_vec(), b"keep-alive".to_vec());
    assert!(!is_protocol_upgrade(&headers));
    headers.insert(b"connection".to_vec(), b"Upgrade".to_vec());
    assert!(is_protocol_upgrade(&headers));
    let mut only_connection = HeaderList::new();
    only_connection.insert(b"connection".to_vec(), b"Upgrade".to_vec());
    assert!(!is_protocol_upgrade(&only_connection));
}

#[test]
fn parse_outcomes_for_the_server_layer() {
    let ok = request_to_serve::<()>(server_parser::parse_request(b"GET / HTTP/1.1\r\n\r\n")).unwrap();
    assert_eq!(ok.method, Method::GET);
    match request_to_serve::<()>(server_parser::parse_request(b"get / HTTP/1.1\r\n\r\n")) {
        Err(ProtoHttp1LayerError::Implementation(text)) => {
            assert_eq!(text, "Error parsing request: Expected a block-capital method")
        }
        other => panic!("unexpected {:?}", other),
    }
}

#[test]
fn written_request_parses_back() {
    let mut headers = HeaderList::new();
    headers.insert(b"host".to_vec(), b"x".to_vec());
    let request = HTTP1Request { path: "/a?b=1".to_string(), method: Method::PUT, headers, body: b"hi".to_vec() };
    let mut out = Vec::new();
    request.write_to(&mut out).unwrap();
    let back = server_parser::parse_request(&out).unwrap().unwrap();
    assert_eq!(back.method, Method::PUT);
    assert_eq!(back.path, "/a");
    assert_eq!(back.headers.len(), 2);
    assert_eq!(back.headers.get(b"host").map(|v| v.as_slice()), Some(&b"x"[..]));
    assert_eq!(back.headers.get(b"content-length").map(|v| v.as_slice()), Some(&b"2"[..]));
    assert_eq!(back.body, b"hi".to_vec());
}

/// The answers of the test service: an empty 200 for `/`, the path echoed
/// for `/path/...`.
fn serve(request: &HTTP1Request) -> HTTTP1Response {
    let path = request.path.split('?').next().unwrap_or("");
    if path == "/" {
        HTTTP1Response { status: 200, headers: HeaderList::new(), body: Vec::new() }
    } else if path.starts_with("/path/") {
        HTTTP1Response { status: 200, headers: HeaderList::new(), body: format!("Path was {}", path).into_bytes() }
    } else {
        panic!("no answer for {}", path)
    }
}

/// What the server side sends back for the bytes that a client sent.
fn exchange(input: &[u8]) -> String {
    let request = request_to_serve::<()>(server_parser::parse_request(input)).unwrap();
    let response = serve(&request);
    let mut out = Vec::new();
    response.write_onto(&mut out);
    String::from_utf8(out).unwrap()
}

#[test]
fn test_handler() {
    assert_eq!(exchange(b"GET / HTTP/1.1\r\n\r\n"), "HTTP/1.1 200 OK\r\n\r\n");
}

#[test]
fn test_path() {
    assert_eq!(exchange(b"GET /path/abc HTTP/1.1\r\n\r\n"), "HTTP/1.1 200 OK\r\n\r\nPath was /path/abc");
}

#[test]
fn test_body() {
    assert_eq!(exchange(b"GET / HTTP/1.1\r\nHost: localhost\r\n\r\nHello, World!"), "HTTP/1.1 200 OK\r\n\r\n");
}
