//! The connection-handler logic: reading a request from accumulated bytes,
//! the body-length rule, the keep-alive decision, and the recovery
//! responses.

use http::server::read::body_length;
use http::server::read::decode_header;
use http::server::read::finish_request;
use http::server::read::header_complete;
use http::server::read::take_buffered_request;
use http::server::request::Header;
use http::server::request::Method;
use http::server::request::Request;
use http::server::request::RequestParseError;
use http::server::bad_request_response;
use http::server::connection_keep_alive;
use http::server::internal_error_response;
use http::server::process_request;
use http::ReadError;
use http::Server;

struct EchoServer;

impl Server for EchoServer {
    fn handle_request(&self, request: Request) -> http::server::response::Response {
        let body = format!("{} {}", request.header().uri(), request.body());
        http::server::response::Response::new(200, "OK".to_string(), Some(body))
    }
}

fn read_from(bytes: &[u8]) -> Result<Option<Request>, ReadError> {
    // The transport loop of the embedding application, fed from a buffer:
    // read byte by byte until the terminator, then exactly the announced
    // body length.
    let mut pos = 0;
    let mut buffer: Vec<u8> = Vec::new();
    loop {
        if pos == bytes.len() {
            return Ok(None);
        }
        buffer.push(bytes[pos]);
        pos += 1;
        if header_complete(&buffer) {
            break;
        }
    }
    let header = decode_header(buffer)?;
    let length = body_length(&header)?;
    let mut body: Vec<u8> = Vec::new();
    while body.len() < length && pos < bytes.len() {
        body.push(bytes[pos]);
        pos += 1;
    }
    finish_request(header, body).map(Some)
}


fn read_err(bytes: &[u8]) -> ReadError {
    match read_from(bytes) {
        Err(e) => e,
        Ok(_) => panic!("error expected"),
    }
}

#[test]
fn header_complete_detects_terminator() {
    assert!(!header_complete(&b"GET".to_vec()));
    assert!(!header_complete(&b"\r\n\r".to_vec()));
    assert!(header_complete(&b"\r\n\r\n".to_vec()));
    assert!(header_complete(&b"GET / HTTP/1.1\r\n\r\n".to_vec()));
    assert!(!header_complete(&b"GET / HTTP/1.1\r\n\r\nx".to_vec()));
}

#[test]
fn content_length_body_is_read_exactly() {
    let request = read_from(b"POST /u HTTP/1.1\r\nContent-Length: 5\r\n\r\nhello").unwrap();
    match request {
        Some(req) => {
            assert_eq!(req.header().get_header("Content-Length"), Some("5"));
            assert_eq!(req.body(), "hello");
        },
        None => panic!("request expected"),
    }
}

#[test]
fn missing_content_length_means_empty_body() {
    let request = read_from(b"GET / HTTP/1.1\r\n\r\n").unwrap();
    match request {
        Some(req) => {
            assert_eq!(req.body(), "");
            assert_eq!(req.header().uri(), "/");
        },
        None => panic!("request expected"),
    }
}

#[test]
fn non_numeric_content_length_is_its_own_error() {
    match read_err(b"POST /u HTTP/1.1\r\nContent-Length: abc\r\n\r\n") {
        ReadError::InvalidContentLength(value) => assert_eq!(value, "abc"),
        _ => panic!("content-length-specific error expected"),
    }
}

#[test]
fn malformed_request_line_is_a_parse_error() {
    match read_err(b"GET /\r\n\r\n") {
        ReadError::RequestParseError(RequestParseError::NoVersion) => {},
        _ => panic!("request-line-specific error expected"),
    }
}

#[test]
fn keep_alive_loop_over_one_connection() {
    // Two sequential requests, the first asking for keep-alive; a third
    // without the header closes the connection after its response.
    let server = EchoServer;
    let first = read_from(b"GET /a HTTP/1.1\r\nConnection: keep-alive\r\n\r\n").unwrap().unwrap();
    let (_, keep) = process_request(&server, first);
    assert!(keep);
    let second = read_from(b"GET /b HTTP/1.1\r\nConnection: keep-alive\r\n\r\n").unwrap().unwrap();
    let (_, keep) = process_request(&server, second);
    assert!(keep);
    let third = read_from(b"GET /c HTTP/1.1\r\n\r\n").unwrap().unwrap();
    let (response, keep) = process_request(&server, third);
    assert!(!keep);
    assert!(response.generate().ends_with("\r\n\r\n/c "));
}

#[test]
fn keep_alive_requires_exact_value() {
    let req = read_from(b"GET / HTTP/1.1\r\nConnection: close\r\n\r\n").unwrap().unwrap();
    assert!(!connection_keep_alive(&req));
    let req = read_from(b"GET / HTTP/1.1\r\nConnection: Keep-Alive\r\n\r\n").unwrap().unwrap();
    assert!(!connection_keep_alive(&req));
    let req = read_from(b"GET / HTTP/1.1\r\nConnection: keep-alive\r\n\r\n").unwrap().unwrap();
    assert!(connection_keep_alive(&req));
}

#[test]
fn bad_request_recovery_carries_error_text() {
    let error = read_err(b"GET /\r\n\r\n");
    let response = bad_request_response(&error);
    let text = response.generate();
    assert!(text.starts_with("HTTP/1.1 400 Bad Request\r\n"));
    assert!(text.ends_with("\r\n\r\nUnable to parse request (No version)"));
    let error = read_err(b"POST / HTTP/1.1\r\nContent-Length: abc\r\n\r\n");
    let response = bad_request_response(&error);
    let text = response.generate();
    assert!(text.starts_with("HTTP/1.1 400 Bad Request\r\n"));
    assert!(text.ends_with("\r\n\r\nInvalid Content-Length value (abc)"));
}

#[test]
fn internal_error_recovery_carries_failure_text() {
    let response = internal_error_response("handler gave up".to_string());
    let text = response.generate();
    assert!(text.starts_with("HTTP/1.1 500 Internal Server Error\r\n"));
    assert!(text.ends_with("\r\n\r\nhandler gave up"));
}

#[test]
fn server_header_block_trims_and_overwrites() {
    let header = Header::parse("GET /x HTTP/1.1\r\n A : 1\r\nA: 2\r\n\r\n");
    match header {
        Ok(h) => {
            assert_eq!(h.uri(), "/x");
            assert_eq!(h.get_header("A"), Some("2"));
        },
        Err(_) => panic!("well-formed header rejected"),
    }
}

#[test]
fn request_line_errors_are_distinct() {
    assert!(matches!(Header::parse("FETCH / HTTP/1.1\r\n\r\n"),
        Err(RequestParseError::InvalidMethod(_))));
    assert!(matches!(Header::parse("GET\r\n\r\n"), Err(RequestParseError::NoURI)));
    assert!(matches!(Header::parse("GET /\r\n\r\n"), Err(RequestParseError::NoVersion)));
    assert!(matches!(Header::parse("GET / HTTP/1.0\r\n\r\n"),
        Err(RequestParseError::InvalidHTTPVersion)));
    assert!(matches!(Header::parse("GET / HTTP/1.1 x\r\n\r\n"),
        Err(RequestParseError::RequestLineTooLong)));
    assert!(matches!(Header::parse("GET / HTTP/1.1\r\nA: 1"),
        Err(RequestParseError::InvalidEnding)));
    assert!(matches!(Header::parse("GET / HTTP/1.1\r\nbroken\r\n\r\n"),
        Err(RequestParseError::InvalidHeaderLine(_))));
}

#[test]
fn buffered_read_consumes_exactly_the_announced_body() {
    let head = b"POST /u HTTP/1.1\r\nContent-Length: 5\r\n\r\n";
    let mut stream = head.to_vec();
    stream.extend_from_slice(b"helloEXTRA");
    match take_buffered_request(&stream) {
        Ok(Some((request, consumed))) => {
            assert_eq!(request.body(), "hello");
            assert_eq!(consumed, head.len() + 5);
        },
        _ => panic!("complete request expected"),
    }
}

#[test]
fn buffered_read_waits_for_a_complete_request() {
    assert!(matches!(take_buffered_request(&b"GET / HTTP/1.1\r\n".to_vec()), Ok(None)));
    assert!(matches!(
        take_buffered_request(&b"POST /u HTTP/1.1\r\nContent-Length: 5\r\n\r\nhel".to_vec()),
        Ok(None)
    ));
    match take_buffered_request(&b"GET / HTTP/1.1\r\n\r\n".to_vec()) {
        Ok(Some((request, consumed))) => {
            assert_eq!(request.body(), "");
            assert_eq!(consumed, 18);
        },
        _ => panic!("complete request expected"),
    }
}

#[test]
fn buffered_read_reports_bad_content_length() {
    match take_buffered_request(&b"POST /u HTTP/1.1\r\nContent-Length: abc\r\n\r\n".to_vec()) {
        Err(ReadError::InvalidContentLength(value)) => assert_eq!(value, "abc"),
        _ => panic!("content-length-specific error expected"),
    }
}

#[test]
fn server_method_round_trip() {
    let methods = vec![
        Method::Options,
        Method::Get,
        Method::Head,
        Method::Post,
        Method::Put,
        Method::Delete,
        Method::Trace,
        Method::Connect,
    ];
    for m in methods {
        match Method::parse(m.as_str()) {
            Ok(back) => assert_eq!(back, m),
            Err(_) => panic!("token of a method did not parse"),
        }
    }
    match Method::parse("nope") {
        Ok(_) => panic!("unknown token accepted"),
        Err(e) => assert_eq!(e.message(), "Invalid method (nope)"),
    }
}

#[test]
fn server_request_holds_header_and_body() {
    let header = match Header::parse("GET /here HTTP/1.1\r\n\r\n") {
        Ok(h) => h,
        Err(_) => panic!("well-formed header rejected"),
    };
    let request = Request::new(header, "payload".to_string());
    assert_eq!(request.header().uri(), "/here");
    assert_eq!(request.body(), "payload");
    assert!(matches!(request.header().method(), Method::Get));
}

#[test]
fn read_error_messages() {
    let error = read_err(b"POST / HTTP/1.1\r\nContent-Length: abc\r\n\r\n");
    assert_eq!(error.message(), "Invalid Content-Length value (abc)");
    let error = read_err(b"FETCH / HTTP/1.1\r\n\r\n");
    assert_eq!(error.message(), "Unable to parse request (Invalid method (FETCH))");
}
