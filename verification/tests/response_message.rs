//! The response message types: parsing from raw bytes, compilation, and
//! the server-side generation with automatic headers.

use http::server::response::Response as ServerResponse;
use http::Error;
use http::Response;
use http::Status;

#[test]
fn parse_full_response() {
    let bytes = b"HTTP/1.1 404 Not Found\r\nServer: test\r\n\r\ngone".to_vec();
    match Response::parse(bytes) {
        Ok(resp) => {
            assert!(matches!(resp.status(), Status::NotFound));
            assert_eq!(resp.headers().get("Server").map(|s| s.as_str()), Some("test"));
            assert_eq!(resp.body(), &b"gone".to_vec());
        },
        Err(_) => panic!("well-formed response rejected"),
    }
}

#[test]
fn parse_reassembles_phrase_with_spaces() {
    let bytes = b"HTTP/1.1 203 Non-Authoritative Information\r\n\r\n".to_vec();
    match Response::parse(bytes) {
        Ok(resp) => assert!(matches!(resp.status(), Status::NonAuthoritativeInformation)),
        Err(_) => panic!("phrase with spaces rejected"),
    }
}

#[test]
fn parse_rejects_mismatched_phrase() {
    let bytes = b"HTTP/1.1 200 Not OK\r\n\r\n".to_vec();
    assert!(matches!(Response::parse(bytes), Err(Error::BadResponse)));
}

#[test]
fn parse_rejects_unknown_code() {
    let bytes = b"HTTP/1.1 299 OK\r\n\r\n".to_vec();
    assert!(matches!(Response::parse(bytes), Err(Error::BadResponse)));
}

#[test]
fn parse_rejects_non_numeric_code() {
    let bytes = b"HTTP/1.1 abc OK\r\n\r\n".to_vec();
    assert!(matches!(Response::parse(bytes), Err(Error::BadResponse)));
}

#[test]
fn parse_rejects_wrong_status_version() {
    let bytes = b"HTTP/1.0 200 OK\r\n\r\n".to_vec();
    assert!(matches!(Response::parse(bytes), Err(Error::BadResponse)));
}

#[test]
fn compile_carries_auto_headers() {
    let response = Response::new_ok(b"hi".to_vec());
    assert_eq!(
        response.compile(),
        b"HTTP/1.1 200 OK\r\nContent-Length: 2\r\nContent-Type: text/plain\r\nServer: Hart/1.0.0\r\n\r\nhi"
            .to_vec()
    );
    let response = Response::new_status(Status::NoContent);
    assert_eq!(
        response.compile(),
        b"HTTP/1.1 204 No Content\r\nContent-Length: 0\r\nContent-Type: text/plain\r\nServer: Hart/1.0.0\r\n\r\n"
            .to_vec()
    );
}

#[test]
fn compile_keeps_explicit_content_type_and_overwrites_length() {
    let parsed = Response::parse(
        b"HTTP/1.1 200 OK\r\nContent-Type: text/html\r\nContent-Length: 99\r\n\r\nwxyz".to_vec(),
    );
    let response = match parsed {
        Ok(r) => r,
        Err(_) => panic!("well-formed response rejected"),
    };
    let bytes = response.compile();
    let text = String::from_utf8(bytes).unwrap();
    assert!(text.contains("Content-Type: text/html\r\n"));
    assert!(!text.contains("text/plain"));
    assert!(text.contains("Content-Length: 4\r\n"));
    assert!(!text.contains("99"));
    assert!(text.contains("Server: Hart/1.0.0\r\n"));
}

#[test]
fn compiled_response_parses_back() {
    let response = Response::new(Status::Accepted, b"done".to_vec());
    let bytes = response.compile();
    match Response::parse(bytes) {
        Ok(back) => {
            assert!(matches!(back.status(), Status::Accepted));
            assert_eq!(back.headers().get("Content-Length").map(|s| s.as_str()), Some("4"));
            assert_eq!(back.headers().get("Content-Type").map(|s| s.as_str()), Some("text/plain"));
            assert_eq!(back.headers().get("Server").map(|s| s.as_str()), Some("Hart/1.0.0"));
            assert_eq!(back.body(), &b"done".to_vec());
        },
        Err(_) => panic!("compiled response did not parse back"),
    }
}

#[test]
fn generated_response_carries_auto_headers() {
    let response = ServerResponse::new_status(Status::OK, Some("Hello World!".to_string()));
    let text = response.generate();
    assert!(text.starts_with("HTTP/1.1 200 OK\r\n"));
    assert!(text.contains("Content-Length: 12\r\n"));
    assert!(text.contains("Content-Type: text/plain\r\n"));
    assert!(text.contains("Server: Hart/1.0.0\r\n"));
    assert!(text.ends_with("\r\n\r\nHello World!"));
}

#[test]
fn generated_response_keeps_explicit_content_type() {
    let mut response = ServerResponse::new(200, "OK".to_string(), Some("<p>x</p>".to_string()));
    response.header_mut().insert_header("Content-Type".to_string(), "text/html".to_string());
    let text = response.generate();
    assert!(text.contains("Content-Type: text/html\r\n"));
    assert!(!text.contains("text/plain"));
    assert!(text.contains("Content-Length: 8\r\n"));
}

#[test]
fn generated_response_overwrites_content_length() {
    let mut response = ServerResponse::new_status(Status::OK, Some("abc".to_string()));
    response.header_mut().insert_header("Content-Length".to_string(), "999".to_string());
    let text = response.generate();
    assert!(text.contains("Content-Length: 3\r\n"));
    assert!(!text.contains("999"));
}

#[test]
fn generated_response_without_body() {
    let response = ServerResponse::new_status(Status::NoContent, None);
    let text = response.generate();
    assert!(text.starts_with("HTTP/1.1 204 No Content\r\n"));
    assert!(text.contains("Content-Length: 0\r\n"));
    assert!(text.ends_with("\r\n\r\n"));
}

#[test]
fn server_header_block_renders_in_insertion_order() {
    let mut header = http::server::response::Header::new(200, "OK".to_string());
    header.insert_header("B".to_string(), "2".to_string());
    header.insert_header("A".to_string(), "1".to_string());
    header.insert_header("B".to_string(), "3".to_string());
    assert_eq!(header.get_header("B"), Some("3"));
    assert_eq!(header.generate(), "HTTP/1.1 200 OK\r\nB: 3\r\nA: 1\r\n\r\n");
}
