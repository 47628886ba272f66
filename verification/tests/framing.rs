//! Framing: locating the blank line, decoding the header text, and the
//! idempotence of framing an assembled message.

use http::framing::split_http_message;

#[test]
fn frame_splits_at_first_terminator() {
    let message = b"Key: value\r\n\r\nBODY".to_vec();
    match split_http_message(message) {
        Ok((header, body)) => {
            assert_eq!(header, "Key: value");
            assert_eq!(body, b"BODY".to_vec());
        },
        Err(()) => panic!("framed message rejected"),
    }
}

#[test]
fn frame_round_trip_ignores_body_content() {
    let mut message = b"GET / HTTP/1.1\r\nHost: x\r\n\r\n".to_vec();
    let body = b"a\r\n\r\nb\r\n\r\n".to_vec();
    message.extend_from_slice(&body);
    match split_http_message(message) {
        Ok((header, split_body)) => {
            assert_eq!(header, "GET / HTTP/1.1\r\nHost: x");
            assert_eq!(split_body, body);
        },
        Err(()) => panic!("framed message rejected"),
    }
}

#[test]
fn frame_with_terminator_last_gives_empty_body() {
    match split_http_message(b"A: 1\r\n\r\n".to_vec()) {
        Ok((header, body)) => {
            assert_eq!(header, "A: 1");
            assert!(body.is_empty());
        },
        Err(()) => panic!("framed message rejected"),
    }
}

#[test]
fn frame_requires_terminator() {
    assert!(matches!(split_http_message(b"GET / HTTP/1.1\r\n".to_vec()), Err(())));
    assert!(matches!(split_http_message(Vec::new()), Err(())));
}

#[test]
fn frame_requires_utf8_header() {
    let message = vec![0xFFu8, 0xFE, 13, 10, 13, 10, 65];
    assert!(matches!(split_http_message(message), Err(())));
}

#[test]
fn frame_allows_non_utf8_body() {
    let mut message = b"A: 1\r\n\r\n".to_vec();
    message.extend_from_slice(&[0xFF, 0x00, 0xFE]);
    match split_http_message(message) {
        Ok((header, body)) => {
            assert_eq!(header, "A: 1");
            assert_eq!(body, vec![0xFF, 0x00, 0xFE]);
        },
        Err(()) => panic!("framed message rejected"),
    }
}
