//! The request message type: parsing from raw bytes, outbound
//! construction, and compilation back to the wire.

use http::Error;
use http::Method;
use http::Request;

#[test]
fn parse_full_request() {
    let bytes = b"POST /p HTTP/1.1\r\nContent-Length: 4\r\nA: b\r\n\r\nwxyz".to_vec();
    match Request::parse(bytes) {
        Ok(req) => {
            assert!(matches!(req.method(), Method::POST));
            assert_eq!(req.path(), "/p");
            assert_eq!(req.headers().get("Content-Length").map(|s| s.as_str()), Some("4"));
            assert_eq!(req.headers().get("A").map(|s| s.as_str()), Some("b"));
            assert_eq!(req.body(), &b"wxyz".to_vec());
        },
        Err(_) => panic!("well-formed request rejected"),
    }
}

#[test]
fn parse_rejects_missing_version() {
    assert!(matches!(Request::parse(b"GET /\r\n\r\n".to_vec()), Err(Error::NoVersion)));
}

#[test]
fn parse_rejects_missing_path() {
    assert!(matches!(Request::parse(b"GET\r\n\r\n".to_vec()), Err(Error::NoURI)));
}

#[test]
fn parse_rejects_extra_token() {
    assert!(matches!(
        Request::parse(b"GET / HTTP/1.1 extra\r\n\r\n".to_vec()),
        Err(Error::RequestLineTooLong)
    ));
}

#[test]
fn parse_rejects_wrong_version() {
    assert!(matches!(
        Request::parse(b"GET / HTTP/1.0\r\n\r\n".to_vec()),
        Err(Error::InvalidHTTPVersion)
    ));
}

#[test]
fn parse_rejects_unknown_method() {
    match Request::parse(b"FETCH / HTTP/1.1\r\n\r\n".to_vec()) {
        Err(Error::InvalidMethod(token)) => assert_eq!(token, "FETCH"),
        _ => panic!("invalid-method error expected"),
    }
}

#[test]
fn parse_rejects_header_line_without_colon() {
    assert!(matches!(
        Request::parse(b"GET / HTTP/1.1\r\nbroken line\r\n\r\n".to_vec()),
        Err(Error::BadRequest)
    ));
}

#[test]
fn parse_last_duplicate_header_wins() {
    let bytes = b"GET / HTTP/1.1\r\nX: 1\r\nX: 2\r\n\r\n".to_vec();
    match Request::parse(bytes) {
        Ok(req) => {
            assert_eq!(req.headers().get("X").map(|s| s.as_str()), Some("2"));
            assert_eq!(req.headers().len(), 1);
        },
        Err(_) => panic!("well-formed request rejected"),
    }
}

#[test]
fn new_compile_round_trip() {
    let request = Request::new("example.com", Method::GET, "/");
    match request.compile() {
        Ok((addr, port, bytes)) => {
            assert_eq!(addr, "example.com");
            assert_eq!(port, 80);
            assert_eq!(
                bytes,
                b"GET / HTTP/1.1\r\nHost: example.com\r\nConnection: close\r\n\r\n".to_vec()
            );
        },
        Err(_) => panic!("fresh request did not compile"),
    }
}

#[test]
fn compile_with_explicit_port() {
    let request = Request::new("example.com:8080", Method::PUT, "/up");
    match request.compile() {
        Ok((addr, port, bytes)) => {
            assert_eq!(addr, "example.com");
            assert_eq!(port, 8080);
            assert_eq!(
                bytes,
                b"PUT /up HTTP/1.1\r\nHost: example.com:8080\r\nConnection: close\r\n\r\n".to_vec()
            );
        },
        Err(_) => panic!("request with port did not compile"),
    }
}

#[test]
fn compile_rejects_bad_port() {
    let request = Request::new("example.com:http", Method::GET, "/");
    assert!(matches!(request.compile(), Err(Error::BadRequest)));
    let request = Request::new("example.com:99999", Method::GET, "/");
    assert!(matches!(request.compile(), Err(Error::BadRequest)));
}

#[test]
fn caller_attached_headers_and_body_compile() {
    let mut request = Request::new("example.com", Method::POST, "/submit");
    request.insert_header("Content-Length".to_string(), "3".to_string());
    request.set_body(b"abc".to_vec());
    match request.compile() {
        Ok((addr, port, bytes)) => {
            assert_eq!(addr, "example.com");
            assert_eq!(port, 80);
            assert_eq!(
                bytes,
                b"POST /submit HTTP/1.1\r\nHost: example.com\r\nConnection: close\r\nContent-Length: 3\r\n\r\nabc"
                    .to_vec()
            );
        },
        Err(_) => panic!("request with attachments did not compile"),
    }
}

#[test]
fn compiled_request_parses_back() {
    let request = Request::new("example.com", Method::HEAD, "/index.html");
    let (_, _, bytes) = request.compile().unwrap();
    match Request::parse(bytes) {
        Ok(req) => {
            assert!(matches!(req.method(), Method::HEAD));
            assert_eq!(req.path(), "/index.html");
            assert_eq!(req.headers().get("Host").map(|s| s.as_str()), Some("example.com"));
            assert_eq!(req.headers().get("Connection").map(|s| s.as_str()), Some("close"));
            assert!(req.body().is_empty());
        },
        Err(_) => panic!("compiled request did not parse back"),
    }
}
