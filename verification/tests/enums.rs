//! Round trips and parsing of the fixed enumerations: methods, statuses,
//! and the header-name registries.

use http::headers::EntityHeader;
use http::headers::GeneralHeader;
use http::headers::RequestHeader;
use http::Error;
use http::Method;
use http::Status;

#[test]
fn method_round_trip() {
    let methods = vec![
        Method::OPTIONS,
        Method::GET,
        Method::HEAD,
        Method::POST,
        Method::PUT,
        Method::DELETE,
        Method::TRACE,
        Method::CONNECT,
    ];
    for m in methods {
        match Method::parse(m.as_str()) {
            Ok(back) => assert_eq!(back, m),
            Err(_) => panic!("token of {:?} did not parse", m),
        }
    }
}

#[test]
fn method_tokens_exact() {
    assert!(matches!(Method::parse("GET"), Ok(Method::GET)));
    assert!(matches!(Method::parse("get"), Err(Error::InvalidMethod(_))));
    assert!(matches!(Method::parse("GETX"), Err(Error::InvalidMethod(_))));
    assert!(matches!(Method::parse(""), Err(Error::InvalidMethod(_))));
    assert!(matches!(Method::parse(" GET"), Err(Error::InvalidMethod(_))));
}

#[test]
fn method_error_names_the_token() {
    match Method::parse("get") {
        Err(Error::InvalidMethod(token)) => {
            assert_eq!(token, "get");
            assert_eq!(Error::InvalidMethod(token).message(), "Invalid method (get)");
        },
        _ => panic!("invalid-method error expected"),
    }
}

fn all_statuses() -> Vec<Status> {
    vec![
        Status::Continue,
        Status::SwitchingProtocols,
        Status::OK,
        Status::Created,
        Status::Accepted,
        Status::NonAuthoritativeInformation,
        Status::NoContent,
        Status::ResetContent,
        Status::PartialContent,
        Status::MultipleChoices,
        Status::MovedPermanently,
        Status::Found,
        Status::SeeOther,
        Status::NotModified,
        Status::UseProxy,
        Status::TemporaryRedirect,
        Status::BadRequest,
        Status::Unauthorized,
        Status::PaymentRequired,
        Status::Forbidden,
        Status::NotFound,
        Status::MethodNotAllowed,
        Status::NotAcceptable,
        Status::ProxyAuthenticationRequired,
        Status::RequestTimeout,
        Status::Conflict,
        Status::Gone,
        Status::LengthRequired,
        Status::PreconditionFailed,
        Status::RequestEntityTooLarge,
        Status::RequestURITooLarge,
        Status::UnsupportedMediaType,
        Status::RequestedRangeNotSatisfiable,
        Status::ExpectationFailed,
        Status::InternalServerError,
        Status::NotImplemented,
        Status::BadGateway,
        Status::ServiceUnavailable,
        Status::GatewayTimeout,
        Status::HTTPVersionNotSupported,
    ]
}

#[test]
fn status_round_trip() {
    for s in all_statuses() {
        match Status::parse(s.code(), s.reason_phrase()) {
            Ok(back) => assert_eq!(back, s),
            Err(_) => panic!("code and phrase of {:?} did not parse", s),
        }
    }
}

#[test]
fn status_codes_and_phrases() {
    assert_eq!(Status::OK.code(), 200);
    assert_eq!(Status::OK.reason_phrase(), "OK");
    assert_eq!(Status::NotFound.code(), 404);
    assert_eq!(Status::NotFound.reason_phrase(), "Not Found");
    assert_eq!(Status::RequestTimeout.reason_phrase(), "Request Time-out");
    assert_eq!(Status::HTTPVersionNotSupported.code(), 505);
}

#[test]
fn status_rejects_wrong_pairings() {
    assert!(matches!(Status::parse(200, "Not OK"), Err(Error::BadResponse)));
    assert!(matches!(Status::parse(200, "ok"), Err(Error::BadResponse)));
    assert!(matches!(Status::parse(299, "OK"), Err(Error::BadResponse)));
    assert!(matches!(Status::parse(0, ""), Err(Error::BadResponse)));
    assert!(matches!(Status::parse(404, "Not  Found"), Err(Error::BadResponse)));
}

#[test]
fn entity_header_parse() {
    match EntityHeader::parse("Content-Length: 42") {
        Ok((h, v)) => {
            assert_eq!(h, EntityHeader::ContentLength);
            assert_eq!(v, "42");
        },
        Err(_) => panic!("well-formed entity header rejected"),
    }
    assert!(matches!(EntityHeader::parse("X-Custom: 1"), Err(Error::InvalidHeader)));
    assert!(matches!(EntityHeader::parse("no colon here"), Err(Error::BadRequest)));
    assert_eq!(EntityHeader::ContentMD5.as_str(), "Content-MD5");
}

#[test]
fn general_header_parse() {
    match GeneralHeader::parse(" Connection :  keep-alive ") {
        Ok((h, v)) => {
            assert_eq!(h, GeneralHeader::Connection);
            assert_eq!(v, "keep-alive");
        },
        Err(_) => panic!("well-formed general header rejected"),
    }
    assert!(matches!(GeneralHeader::parse("Content-Length: 1"), Err(Error::InvalidHeader)));
    assert_eq!(GeneralHeader::TransferEncoding.as_str(), "Transfer-Encoding");
}

#[test]
fn request_header_parse() {
    match RequestHeader::parse("User-Agent: curl/8") {
        Ok((h, v)) => {
            assert_eq!(h, RequestHeader::UserAgent);
            assert_eq!(v, "curl/8");
        },
        Err(_) => panic!("well-formed request header rejected"),
    }
    assert!(matches!(RequestHeader::parse("host: x"), Err(Error::InvalidHeader)));
    assert_eq!(RequestHeader::IfModifiedSince.as_str(), "If-Modified-Since");
}
