//! The response side of the message engine: the status registry with its
//! canonical reason phrases, and a response that parses from raw bytes and
//! compiles back to them.

use vstd::prelude::*;
use vstd::utf8::encode_utf8;

use crate::error::Error;
use crate::framing::spec_frame;
use crate::framing::split_http_message;
use crate::header_map::add_header_lines;
use crate::header_map::lemma_get_insert_other;
use crate::header_map::lemma_get_insert_same;
use crate::header_map::spec_add_header_lines;
use crate::header_map::spec_get;
use crate::header_map::spec_header_lines;
use crate::header_map::spec_insert;
use crate::header_map::HeaderMap;
use crate::text::concat_each_from;
use crate::text::parse_usize;
use crate::text::spec_concat_each;
use crate::text::spec_parse_usize;
use crate::text::spec_split;
use crate::text::spec_trim;
use crate::text::spec_uint_string;
use crate::text::split_string;
use crate::text::str_eq;
use crate::text::trim;
use crate::text::usize_to_string;
use crate::text::views_of;

verus! {

/// The status registry: every status code this engine knows, each paired
/// with exactly one canonical reason phrase.
#[derive(Debug, Clone, Copy, PartialEq, Eq, Structural)]
pub enum Status {
    Continue,
    SwitchingProtocols,
    OK,
    Created,
    Accepted,
    NonAuthoritativeInformation,
    NoContent,
    ResetContent,
    PartialContent,
    MultipleChoices,
    MovedPermanently,
    Found,
    SeeOther,
    NotModified,
    UseProxy,
    TemporaryRedirect,
    BadRequest,
    Unauthorized,
    PaymentRequired,
    Forbidden,
    NotFound,
    MethodNotAllowed,
    NotAcceptable,
    ProxyAuthenticationRequired,
    RequestTimeout,
    Conflict,
    Gone,
    LengthRequired,
    PreconditionFailed,
    RequestEntityTooLarge,
    RequestURITooLarge,
    UnsupportedMediaType,
    RequestedRangeNotSatisfiable,
    ExpectationFailed,
    InternalServerError,
    NotImplemented,
    BadGateway,
    ServiceUnavailable,
    GatewayTimeout,
    HTTPVersionNotSupported,
}

/// The numeric code of a status.
pub open spec fn status_code(s: Status) -> int {
    match s {
        Status::Continue => 100,
        Status::SwitchingProtocols => 101,
        Status::OK => 200,
        Status::Created => 201,
        Status::Accepted => 202,
        Status::NonAuthoritativeInformation => 203,
        Status::NoContent => 204,
        Status::ResetContent => 205,
        Status::PartialContent => 206,
        Status::MultipleChoices => 300,
        Status::MovedPermanently => 301,
        Status::Found => 302,
        Status::SeeOther => 303,
        Status::NotModified => 304,
        Status::UseProxy => 305,
        Status::TemporaryRedirect => 307,
        Status::BadRequest => 400,
        Status::Unauthorized => 401,
        Status::PaymentRequired => 402,
        Status::Forbidden => 403,
        Status::NotFound => 404,
        Status::MethodNotAllowed => 405,
        Status::NotAcceptable => 406,
        Status::ProxyAuthenticationRequired => 407,
        Status::RequestTimeout => 408,
        Status::Conflict => 409,
        Status::Gone => 410,
        Status::LengthRequired => 411,
        Status::PreconditionFailed => 412,
        Status::RequestEntityTooLarge => 413,
        Status::RequestURITooLarge => 414,
        Status::UnsupportedMediaType => 415,
        Status::RequestedRangeNotSatisfiable => 416,
        Status::ExpectationFailed => 417,
        Status::InternalServerError => 500,
        Status::NotImplemented => 501,
        Status::BadGateway => 502,
        Status::ServiceUnavailable => 503,
        Status::GatewayTimeout => 504,
        Status::HTTPVersionNotSupported => 505,
    }
}

/// The canonical reason phrase of a status.
pub open spec fn status_phrase(s: Status) -> Seq<char> {
    match s {
        Status::Continue => "Continue"@,
        Status::SwitchingProtocols => "Switching Protocols"@,
        Status::OK => "OK"@,
        Status::Created => "Created"@,
        Status::Accepted => "Accepted"@,
        Status::NonAuthoritativeInformation => "Non-Authoritative Information"@,
        Status::NoContent => "No Content"@,
        Status::ResetContent => "Reset Content"@,
        Status::PartialContent => "Partial Content"@,
        Status::MultipleChoices => "Multiple Choices"@,
        Status::MovedPermanently => "Moved Permanently"@,
        Status::Found => "Found"@,
        Status::SeeOther => "See Other"@,
        Status::NotModified => "Not Modified"@,
        Status::UseProxy => "Use Proxy"@,
        Status::TemporaryRedirect => "Temporary Redirect"@,
        Status::BadRequest => "Bad Request"@,
        Status::Unauthorized => "Unauthorized"@,
        Status::PaymentRequired => "Payment Required"@,
        Status::Forbidden => "Forbidden"@,
        Status::NotFound => "Not Found"@,
        Status::MethodNotAllowed => "Method Not Allowed"@,
        Status::NotAcceptable => "Not Acceptable"@,
        Status::ProxyAuthenticationRequired => "Proxy Authentication Required"@,
        Status::RequestTimeout => "Request Time-out"@,
        Status::Conflict => "Conflict"@,
        Status::Gone => "Gone"@,
        Status::LengthRequired => "Length Required"@,
        Status::PreconditionFailed => "Precondition Failed"@,
        Status::RequestEntityTooLarge => "Request Entity Too Large"@,
        Status::RequestURITooLarge => "Request-URI Too Large"@,
        Status::UnsupportedMediaType => "Unsupported Media Type"@,
        Status::RequestedRangeNotSatisfiable => "Requested Range Not Satisfiable"@,
        Status::ExpectationFailed => "Expectation Failed"@,
        Status::InternalServerError => "Internal Server Error"@,
        Status::NotImplemented => "Not Implemented"@,
        Status::BadGateway => "Bad Gateway"@,
        Status::ServiceUnavailable => "Service Unavailable"@,
        Status::GatewayTimeout => "Gateway Time-out"@,
        Status::HTTPVersionNotSupported => "HTTP Version Not Supported"@,
    }
}

/// The status a code denotes, if the registry holds it.
pub open spec fn spec_status_of_code(code: int) -> Option<Status> {
    if code == 100 {
        Some(Status::Continue)
    } else if code == 101 {
        Some(Status::SwitchingProtocols)
    } else if code == 200 {
        Some(Status::OK)
    } else if code == 201 {
        Some(Status::Created)
    } else if code == 202 {
        Some(Status::Accepted)
    } else if code == 203 {
        Some(Status::NonAuthoritativeInformation)
    } else if code == 204 {
        Some(Status::NoContent)
    } else if code == 205 {
        Some(Status::ResetContent)
    } else if code == 206 {
        Some(Status::PartialContent)
    } else if code == 300 {
        Some(Status::MultipleChoices)
    } else if code == 301 {
        Some(Status::MovedPermanently)
    } else if code == 302 {
        Some(Status::Found)
    } else if code == 303 {
        Some(Status::SeeOther)
    } else if code == 304 {
        Some(Status::NotModified)
    } else if code == 305 {
        Some(Status::UseProxy)
    } else if code == 307 {
        Some(Status::TemporaryRedirect)
    } else if code == 400 {
        Some(Status::BadRequest)
    } else if code == 401 {
        Some(Status::Unauthorized)
    } else if code == 402 {
        Some(Status::PaymentRequired)
    } else if code == 403 {
        Some(Status::Forbidden)
    } else if code == 404 {
        Some(Status::NotFound)
    } else if code == 405 {
        Some(Status::MethodNotAllowed)
    } else if code == 406 {
        Some(Status::NotAcceptable)
    } else if code == 407 {
        Some(Status::ProxyAuthenticationRequired)
    } else if code == 408 {
        Some(Status::RequestTimeout)
    } else if code == 409 {
        Some(Status::Conflict)
    } else if code == 410 {
        Some(Status::Gone)
    } else if code == 411 {
        Some(Status::LengthRequired)
    } else if code == 412 {
        Some(Status::PreconditionFailed)
    } else if code == 413 {
        Some(Status::RequestEntityTooLarge)
    } else if code == 414 {
        Some(Status::RequestURITooLarge)
    } else if code == 415 {
        Some(Status::UnsupportedMediaType)
    } else if code == 416 {
        Some(Status::RequestedRangeNotSatisfiable)
    } else if code == 417 {
        Some(Status::ExpectationFailed)
    } else if code == 500 {
        Some(Status::InternalServerError)
    } else if code == 501 {
        Some(Status::NotImplemented)
    } else if code == 502 {
        Some(Status::BadGateway)
    } else if code == 503 {
        Some(Status::ServiceUnavailable)
    } else if code == 504 {
        Some(Status::GatewayTimeout)
    } else if code == 505 {
        Some(Status::HTTPVersionNotSupported)
    } else {
        None
    }
}

/// The status a code and phrase pair denotes: the code must be in the
/// registry and the phrase must match it exactly.
pub open spec fn spec_status_parse(code: int, name: Seq<char>) -> Option<Status> {
    match spec_status_of_code(code) {
        Some(s) => if name == status_phrase(s) {
            Some(s)
        } else {
            None
        },
        None => None,
    }
}

impl Status {
    /// The numeric code of this status.
    pub fn code(&self) -> (r: usize)
        ensures
            r as int == status_code(*self),
    {
        match self {
            Status::Continue => 100,
            Status::SwitchingProtocols => 101,
            Status::OK => 200,
            Status::Created => 201,
            Status::Accepted => 202,
            Status::NonAuthoritativeInformation => 203,
            Status::NoContent => 204,
            Status::ResetContent => 205,
            Status::PartialContent => 206,
            Status::MultipleChoices => 300,
            Status::MovedPermanently => 301,
            Status::Found => 302,
            Status::SeeOther => 303,
            Status::NotModified => 304,
            Status::UseProxy => 305,
            Status::TemporaryRedirect => 307,
            Status::BadRequest => 400,
            Status::Unauthorized => 401,
            Status::PaymentRequired => 402,
            Status::Forbidden => 403,
            Status::NotFound => 404,
            Status::MethodNotAllowed => 405,
            Status::NotAcceptable => 406,
            Status::ProxyAuthenticationRequired => 407,
            Status::RequestTimeout => 408,
            Status::Conflict => 409,
            Status::Gone => 410,
            Status::LengthRequired => 411,
            Status::PreconditionFailed => 412,
            Status::RequestEntityTooLarge => 413,
            Status::RequestURITooLarge => 414,
            Status::UnsupportedMediaType => 415,
            Status::RequestedRangeNotSatisfiable => 416,
            Status::ExpectationFailed => 417,
            Status::InternalServerError => 500,
            Status::NotImplemented => 501,
            Status::BadGateway => 502,
            Status::ServiceUnavailable => 503,
            Status::GatewayTimeout => 504,
            Status::HTTPVersionNotSupported => 505,
        }
    }

    /// The canonical reason phrase of this status.
    pub fn reason_phrase(&self) -> (r: &'static str)
        ensures
            r@ == status_phrase(*self),
    {
        match self {
            Status::Continue => "Continue",
            Status::SwitchingProtocols => "Switching Protocols",
            Status::OK => "OK",
            Status::Created => "Created",
            Status::Accepted => "Accepted",
            Status::NonAuthoritativeInformation => "Non-Authoritative Information",
            Status::NoContent => "No Content",
            Status::ResetContent => "Reset Content",
            Status::PartialContent => "Partial Content",
            Status::MultipleChoices => "Multiple Choices",
            Status::MovedPermanently => "Moved Permanently",
            Status::Found => "Found",
            Status::SeeOther => "See Other",
            Status::NotModified => "Not Modified",
            Status::UseProxy => "Use Proxy",
            Status::TemporaryRedirect => "Temporary Redirect",
            Status::BadRequest => "Bad Request",
            Status::Unauthorized => "Unauthorized",
            Status::PaymentRequired => "Payment Required",
            Status::Forbidden => "Forbidden",
            Status::NotFound => "Not Found",
            Status::MethodNotAllowed => "Method Not Allowed",
            Status::NotAcceptable => "Not Acceptable",
            Status::ProxyAuthenticationRequired => "Proxy Authentication Required",
            Status::RequestTimeout => "Request Time-out",
            Status::Conflict => "Conflict",
            Status::Gone => "Gone",
            Status::LengthRequired => "Length Required",
            Status::PreconditionFailed => "Precondition Failed",
            Status::RequestEntityTooLarge => "Request Entity Too Large",
            Status::RequestURITooLarge => "Request-URI Too Large",
            Status::UnsupportedMediaType => "Unsupported Media Type",
            Status::RequestedRangeNotSatisfiable => "Requested Range Not Satisfiable",
            Status::ExpectationFailed => "Expectation Failed",
            Status::InternalServerError => "Internal Server Error",
            Status::NotImplemented => "Not Implemented",
            Status::BadGateway => "Bad Gateway",
            Status::ServiceUnavailable => "Service Unavailable",
            Status::GatewayTimeout => "Gateway Time-out",
            Status::HTTPVersionNotSupported => "HTTP Version Not Supported",
        }
    }

    /// Parses a code and phrase pair; a code outside the registry, or a
    /// phrase that is not the canonical one for the code, is rejected.
    #[verifier::rlimit(50)]
    pub fn parse(code: usize, name: &str) -> (r: Result<Status, Error>)
        ensures
            match r {
                Ok(s) => spec_status_parse(code as int, name@) == Some(s),
                Err(e) => spec_status_parse(code as int, name@) is None && e is BadResponse,
            },
    {
        match code {
            100 => {
                if str_eq(name, "Continue") {
                    Ok(Status::Continue)
                } else {
                    Err(Error::BadResponse)
                }
            },
            101 => {
                if str_eq(name, "Switching Protocols") {
                    Ok(Status::SwitchingProtocols)
                } else {
                    Err(Error::BadResponse)
                }
            },
            200 => {
                if str_eq(name, "OK") {
                    Ok(Status::OK)
                } else {
                    Err(Error::BadResponse)
                }
            },
            201 => {
                if str_eq(name, "Created") {
                    Ok(Status::Created)
                } else {
                    Err(Error::BadResponse)
                }
            },
            202 => {
                if str_eq(name, "Accepted") {
                    Ok(Status::Accepted)
                } else {
                    Err(Error::BadResponse)
                }
            },
            203 => {
                if str_eq(name, "Non-Authoritative Information") {
                    Ok(Status::NonAuthoritativeInformation)
                } else {
                    Err(Error::BadResponse)
                }
            },
            204 => {
                if str_eq(name, "No Content") {
                    Ok(Status::NoContent)
                } else {
                    Err(Error::BadResponse)
                }
            },
            205 => {
                if str_eq(name, "Reset Content") {
                    Ok(Status::ResetContent)
                } else {
                    Err(Error::BadResponse)
                }
            },
            206 => {
                if str_eq(name, "Partial Content") {
                    Ok(Status::PartialContent)
                } else {
                    Err(Error::BadResponse)
                }
            },
            300 => {
                if str_eq(name, "Multiple Choices") {
                    Ok(Status::MultipleChoices)
                } else {
                    Err(Error::BadResponse)
                }
            },
            301 => {
                if str_eq(name, "Moved Permanently") {
                    Ok(Status::MovedPermanently)
                } else {
                    Err(Error::BadResponse)
                }
            },
            302 => {
                if str_eq(name, "Found") {
                    Ok(Status::Found)
                } else {
                    Err(Error::BadResponse)
                }
            },
            303 => {
                if str_eq(name, "See Other") {
                    Ok(Status::SeeOther)
                } else {
                    Err(Error::BadResponse)
                }
            },
            304 => {
                if str_eq(name, "Not Modified") {
                    Ok(Status::NotModified)
                } else {
                    Err(Error::BadResponse)
                }
            },
            305 => {
                if str_eq(name, "Use Proxy") {
                    Ok(Status::UseProxy)
                } else {
                    Err(Error::BadResponse)
                }
            },
            307 => {
                if str_eq(name, "Temporary Redirect") {
                    Ok(Status::TemporaryRedirect)
                } else {
                    Err(Error::BadResponse)
                }
            },
            400 => {
                if str_eq(name, "Bad Request") {
                    Ok(Status::BadRequest)
                } else {
                    Err(Error::BadResponse)
                }
            },
            401 => {
                if str_eq(name, "Unauthorized") {
                    Ok(Status::Unauthorized)
                } else {
                    Err(Error::BadResponse)
                }
            },
            402 => {
                if str_eq(name, "Payment Required") {
                    Ok(Status::PaymentRequired)
                } else {
                    Err(Error::BadResponse)
                }
            },
            403 => {
                if str_eq(name, "Forbidden") {
                    Ok(Status::Forbidden)
                } else {
                    Err(Error::BadResponse)
                }
            },
            404 => {
                if str_eq(name, "Not Found") {
                    Ok(Status::NotFound)
                } else {
                    Err(Error::BadResponse)
                }
            },
            405 => {
                if str_eq(name, "Method Not Allowed") {
                    Ok(Status::MethodNotAllowed)
                } else {
                    Err(Error::BadResponse)
                }
            },
            406 => {
                if str_eq(name, "Not Acceptable") {
                    Ok(Status::NotAcceptable)
                } else {
                    Err(Error::BadResponse)
                }
            },
            407 => {
                if str_eq(name, "Proxy Authentication Required") {
                    Ok(Status::ProxyAuthenticationRequired)
                } else {
                    Err(Error::BadResponse)
                }
            },
            408 => {
                if str_eq(name, "Request Time-out") {
                    Ok(Status::RequestTimeout)
                } else {
                    Err(Error::BadResponse)
                }
            },
            409 => {
                if str_eq(name, "Conflict") {
                    Ok(Status::Conflict)
                } else {
                    Err(Error::BadResponse)
                }
            },
            410 => {
                if str_eq(name, "Gone") {
                    Ok(Status::Gone)
                } else {
                    Err(Error::BadResponse)
                }
            },
            411 => {
                if str_eq(name, "Length Required") {
                    Ok(Status::LengthRequired)
                } else {
                    Err(Error::BadResponse)
                }
            },
            412 => {
                if str_eq(name, "Precondition Failed") {
                    Ok(Status::PreconditionFailed)
                } else {
                    Err(Error::BadResponse)
                }
            },
            413 => {
                if str_eq(name, "Request Entity Too Large") {
                    Ok(Status::RequestEntityTooLarge)
                } else {
                    Err(Error::BadResponse)
                }
            },
            414 => {
                if str_eq(name, "Request-URI Too Large") {
                    Ok(Status::RequestURITooLarge)
                } else {
                    Err(Error::BadResponse)
                }
            },
            415 => {
                if str_eq(name, "Unsupported Media Type") {
                    Ok(Status::UnsupportedMediaType)
                } else {
                    Err(Error::BadResponse)
                }
            },
            416 => {
                if str_eq(name, "Requested Range Not Satisfiable") {
                    Ok(Status::RequestedRangeNotSatisfiable)
                } else {
                    Err(Error::BadResponse)
                }
            },
            417 => {
                if str_eq(name, "Expectation Failed") {
                    Ok(Status::ExpectationFailed)
                } else {
                    Err(Error::BadResponse)
                }
            },
            500 => {
                if str_eq(name, "Internal Server Error") {
                    Ok(Status::InternalServerError)
                } else {
                    Err(Error::BadResponse)
                }
            },
            501 => {
                if str_eq(name, "Not Implemented") {
                    Ok(Status::NotImplemented)
                } else {
                    Err(Error::BadResponse)
                }
            },
            502 => {
                if str_eq(name, "Bad Gateway") {
                    Ok(Status::BadGateway)
                } else {
                    Err(Error::BadResponse)
                }
            },
            503 => {
                if str_eq(name, "Service Unavailable") {
                    Ok(Status::ServiceUnavailable)
                } else {
                    Err(Error::BadResponse)
                }
            },
            504 => {
                if str_eq(name, "Gateway Time-out") {
                    Ok(Status::GatewayTimeout)
                } else {
                    Err(Error::BadResponse)
                }
            },
            505 => {
                if str_eq(name, "HTTP Version Not Supported") {
                    Ok(Status::HTTPVersionNotSupported)
                } else {
                    Err(Error::BadResponse)
                }
            },
            _ => Err(Error::BadResponse),
        }
    }
}

/// Every status round-trips: parsing its own code and phrase gives it back.
pub proof fn lemma_status_round_trip(s: Status)
    ensures
        spec_status_parse(status_code(s), status_phrase(s)) == Some(s),
{
    match s {
        Status::Continue => {
            assert(spec_status_parse(100, "Continue"@) == Some(Status::Continue));
        },
        Status::SwitchingProtocols => {
            assert(spec_status_parse(101, "Switching Protocols"@) == Some(Status::SwitchingProtocols));
        },
        Status::OK => {
            assert(spec_status_parse(200, "OK"@) == Some(Status::OK));
        },
        Status::Created => {
            assert(spec_status_parse(201, "Created"@) == Some(Status::Created));
        },
        Status::Accepted => {
            assert(spec_status_parse(202, "Accepted"@) == Some(Status::Accepted));
        },
        Status::NonAuthoritativeInformation => {
            assert(spec_status_parse(203, "Non-Authoritative Information"@) == Some(Status::NonAuthoritativeInformation));
        },
        Status::NoContent => {
            assert(spec_status_parse(204, "No Content"@) == Some(Status::NoContent));
        },
        Status::ResetContent => {
            assert(spec_status_parse(205, "Reset Content"@) == Some(Status::ResetContent));
        },
        Status::PartialContent => {
            assert(spec_status_parse(206, "Partial Content"@) == Some(Status::PartialContent));
        },
        Status::MultipleChoices => {
            assert(spec_status_parse(300, "Multiple Choices"@) == Some(Status::MultipleChoices));
        },
        Status::MovedPermanently => {
            assert(spec_status_parse(301, "Moved Permanently"@) == Some(Status::MovedPermanently));
        },
        Status::Found => {
            assert(spec_status_parse(302, "Found"@) == Some(Status::Found));
        },
        Status::SeeOther => {
            assert(spec_status_parse(303, "See Other"@) == Some(Status::SeeOther));
        },
        Status::NotModified => {
            assert(spec_status_parse(304, "Not Modified"@) == Some(Status::NotModified));
        },
        Status::UseProxy => {
            assert(spec_status_parse(305, "Use Proxy"@) == Some(Status::UseProxy));
        },
        Status::TemporaryRedirect => {
            assert(spec_status_parse(307, "Temporary Redirect"@) == Some(Status::TemporaryRedirect));
        },
        Status::BadRequest => {
            assert(spec_status_parse(400, "Bad Request"@) == Some(Status::BadRequest));
        },
        Status::Unauthorized => {
            assert(spec_status_parse(401, "Unauthorized"@) == Some(Status::Unauthorized));
        },
        Status::PaymentRequired => {
            assert(spec_status_parse(402, "Payment Required"@) == Some(Status::PaymentRequired));
        },
        Status::Forbidden => {
            assert(spec_status_parse(403, "Forbidden"@) == Some(Status::Forbidden));
        },
        Status::NotFound => {
            assert(spec_status_parse(404, "Not Found"@) == Some(Status::NotFound));
        },
        Status::MethodNotAllowed => {
            assert(spec_status_parse(405, "Method Not Allowed"@) == Some(Status::MethodNotAllowed));
        },
        Status::NotAcceptable => {
            assert(spec_status_parse(406, "Not Acceptable"@) == Some(Status::NotAcceptable));
        },
        Status::ProxyAuthenticationRequired => {
            assert(spec_status_parse(407, "Proxy Authentication Required"@) == Some(Status::ProxyAuthenticationRequired));
        },
        Status::RequestTimeout => {
            assert(spec_status_parse(408, "Request Time-out"@) == Some(Status::RequestTimeout));
        },
        Status::Conflict => {
            assert(spec_status_parse(409, "Conflict"@) == Some(Status::Conflict));
        },
        Status::Gone => {
            assert(spec_status_parse(410, "Gone"@) == Some(Status::Gone));
        },
        Status::LengthRequired => {
            assert(spec_status_parse(411, "Length Required"@) == Some(Status::LengthRequired));
        },
        Status::PreconditionFailed => {
            assert(spec_status_parse(412, "Precondition Failed"@) == Some(Status::PreconditionFailed));
        },
        Status::RequestEntityTooLarge => {
            assert(spec_status_parse(413, "Request Entity Too Large"@) == Some(Status::RequestEntityTooLarge));
        },
        Status::RequestURITooLarge => {
            assert(spec_status_parse(414, "Request-URI Too Large"@) == Some(Status::RequestURITooLarge));
        },
        Status::UnsupportedMediaType => {
            assert(spec_status_parse(415, "Unsupported Media Type"@) == Some(Status::UnsupportedMediaType));
        },
        Status::RequestedRangeNotSatisfiable => {
            assert(spec_status_parse(416, "Requested Range Not Satisfiable"@) == Some(Status::RequestedRangeNotSatisfiable));
        },
        Status::ExpectationFailed => {
            assert(spec_status_parse(417, "Expectation Failed"@) == Some(Status::ExpectationFailed));
        },
        Status::InternalServerError => {
            assert(spec_status_parse(500, "Internal Server Error"@) == Some(Status::InternalServerError));
        },
        Status::NotImplemented => {
            assert(spec_status_parse(501, "Not Implemented"@) == Some(Status::NotImplemented));
        },
        Status::BadGateway => {
            assert(spec_status_parse(502, "Bad Gateway"@) == Some(Status::BadGateway));
        },
        Status::ServiceUnavailable => {
            assert(spec_status_parse(503, "Service Unavailable"@) == Some(Status::ServiceUnavailable));
        },
        Status::GatewayTimeout => {
            assert(spec_status_parse(504, "Gateway Time-out"@) == Some(Status::GatewayTimeout));
        },
        Status::HTTPVersionNotSupported => {
            assert(spec_status_parse(505, "HTTP Version Not Supported"@) == Some(Status::HTTPVersionNotSupported));
        },
    }
}


/// The header-map invariant holds of every parsed response: at most one
/// value is retained per literal name.
pub proof fn lemma_response_parse_unique(b: Seq<u8>)
    ensures
        spec_response_parse(b) matches Some(v) ==> crate::header_map::keys_unique(v.headers),
{
    if spec_response_parse(b) is Some {
        let (h, _) = spec_frame(b).unwrap();
        let lines = spec_split(h, "\r\n"@);
        crate::header_map::lemma_add_header_lines_unique(
            Seq::<(Seq<char>, Seq<char>)>::empty(),
            lines.skip(1),
        );
    }
}

/// The shape of a response, as the contracts speak of it.
pub struct ResponseView {
    pub status: Status,
    pub headers: Seq<(Seq<char>, Seq<char>)>,
    pub body: Seq<u8>,
}

/// An HTTP response: status line, headers, and body.
pub struct Response {
    status: Status,
    headers: HeaderMap,
    body: Vec<u8>,
}

impl View for Response {
    type V = ResponseView;

    closed spec fn view(&self) -> ResponseView {
        ResponseView { status: self.status, headers: self.headers@, body: self.body@ }
    }
}

/// A status line `HTTP/1.1 SP CODE SP REASON...`: the reason phrase is
/// everything after the code, reassembled and trimmed, and must pair with
/// the code exactly.
pub open spec fn spec_response_line(line: Seq<char>) -> Option<Status> {
    let parts = spec_split(line, " "@);
    if parts.len() >= 2 && parts[0] == "HTTP/1.1"@ {
        match spec_parse_usize(parts[1]) {
            Some(code) => spec_status_parse(
                code as int,
                spec_trim(spec_concat_each(parts.skip(2), " "@)),
            ),
            None => None,
        }
    } else {
        None
    }
}

/// A response header block: the status line, then header lines.
pub open spec fn spec_response_header(h: Seq<char>) -> Option<(Status, Seq<(Seq<char>,
    Seq<char>)>)> {
    let lines = spec_split(h, "\r\n"@);
    match spec_response_line(lines[0]) {
        None => None,
        Some(s) => match spec_add_header_lines(
            Seq::<(Seq<char>, Seq<char>)>::empty(),
            lines.skip(1),
        ) {
            None => None,
            Some(hm) => Some((s, hm)),
        },
    }
}

/// A whole response from raw bytes: framing, then the header block; the
/// body is taken verbatim from the frame.
pub open spec fn spec_response_parse(b: Seq<u8>) -> Option<ResponseView> {
    match spec_frame(b) {
        None => None,
        Some((h, body)) => match spec_response_header(h) {
            None => None,
            Some((s, hm)) => Some(ResponseView { status: s, headers: hm, body }),
        },
    }
}

/// The status line a response compiles to.
pub open spec fn spec_status_line(s: Status) -> Seq<char> {
    "HTTP/1.1 "@ + spec_uint_string(status_code(s) as nat) + " "@ + status_phrase(s) + "\r\n"@
}

/// The header map after the automatic derivations of serialization, for a
/// body of `len` bytes: the exact `Content-Length`, a `Content-Type`
/// defaulted to `text/plain` only if unset, and the engine's `Server`
/// identification, always stamped.
pub open spec fn spec_generated_headers(h: Seq<(Seq<char>, Seq<char>)>, len: nat) -> Seq<(Seq<
    char,
>, Seq<char>)> {
    let with_len = spec_insert(h, "Content-Length"@, spec_uint_string(len));
    let with_type = if spec_get(with_len, "Content-Type"@) is Some {
        with_len
    } else {
        spec_insert(with_len, "Content-Type"@, "text/plain"@)
    };
    spec_insert(with_type, "Server"@, "Hart/1.0.0"@)
}

/// The auto-header law: after the derivations of serialization the header
/// map carries the exact `Content-Length` of the body, a `Content-Type`
/// (the caller's own if one was set, else `text/plain`), and the `Server`
/// identification, whatever headers the caller attached.
pub proof fn lemma_response_auto_headers(h: Seq<(Seq<char>, Seq<char>)>, len: nat)
    ensures
        spec_get(spec_generated_headers(h, len), "Content-Length"@) == Some(spec_uint_string(len)),
        spec_get(spec_generated_headers(h, len), "Server"@) == Some("Hart/1.0.0"@),
        spec_get(h, "Content-Type"@) matches Some(ct) ==> spec_get(
            spec_generated_headers(h, len),
            "Content-Type"@,
        ) == Some(ct),
        spec_get(h, "Content-Type"@) is None ==> spec_get(
            spec_generated_headers(h, len),
            "Content-Type"@,
        ) == Some("text/plain"@),
{
    reveal_strlit("Content-Length");
    reveal_strlit("Content-Type");
    reveal_strlit("Server");
    assert("Content-Length"@.len() == 14);
    assert("Content-Type"@.len() == 12);
    assert("Server"@.len() == 6);
    let len_value = spec_uint_string(len);
    let with_len = spec_insert(h, "Content-Length"@, len_value);
    let with_type = if spec_get(with_len, "Content-Type"@) is Some {
        with_len
    } else {
        spec_insert(with_len, "Content-Type"@, "text/plain"@)
    };
    lemma_get_insert_other(h, "Content-Length"@, len_value, "Content-Type"@);
    lemma_get_insert_same(h, "Content-Length"@, len_value);
    if spec_get(with_len, "Content-Type"@) is None {
        lemma_get_insert_same(with_len, "Content-Type"@, "text/plain"@);
        lemma_get_insert_other(with_len, "Content-Type"@, "text/plain"@, "Content-Length"@);
    }
    lemma_get_insert_same(with_type, "Server"@, "Hart/1.0.0"@);
    lemma_get_insert_other(with_type, "Server"@, "Hart/1.0.0"@, "Content-Length"@);
    lemma_get_insert_other(with_type, "Server"@, "Hart/1.0.0"@, "Content-Type"@);
}

/// What compiling a response yields: the status line, one line per header
/// after the automatic derivations, a blank line, and the body bytes.
pub open spec fn spec_response_compile(v: ResponseView) -> Seq<u8> {
    encode_utf8(
        spec_status_line(v.status) + spec_header_lines(
            spec_generated_headers(v.headers, v.body.len()),
        ) + "\r\n"@,
    ) + v.body
}

impl Response {
    pub fn new(status: Status, body: Vec<u8>) -> (r: Response)
        ensures
            r@.status == status,
            r@.headers == Seq::<(Seq<char>, Seq<char>)>::empty(),
            r@.body == body@,
    {
        let r = Response { status, headers: HeaderMap::new(), body };
        r
    }

    pub fn new_ok(body: Vec<u8>) -> (r: Response)
        ensures
            r@.status == Status::OK,
            r@.headers == Seq::<(Seq<char>, Seq<char>)>::empty(),
            r@.body == body@,
    {
        Response::new(Status::OK, body)
    }

    pub fn new_status(status: Status) -> (r: Response)
        ensures
            r@.status == status,
            r@.headers == Seq::<(Seq<char>, Seq<char>)>::empty(),
            r@.body == Seq::<u8>::empty(),
    {
        Response::new(status, Vec::new())
    }

    /// Parses a response from raw bytes; any malformation is a bad response.
    pub fn parse(buffer: Vec<u8>) -> (r: Result<Response, Error>)
        ensures
            match r {
                Ok(resp) => spec_response_parse(buffer@) == Some(resp@),
                Err(e) => spec_response_parse(buffer@) is None && e is BadResponse,
            },
    {
        let (header, body) = match split_http_message(buffer) {
            Ok(value) => value,
            Err(()) => {
                return Err(Error::BadResponse);
            },
        };
        let (status, headers) = match Response::parse_header(header) {
            Ok(value) => value,
            Err(e) => {
                return Err(e);
            },
        };
        Ok(Response { status, headers, body })
    }

    /// Parses the header block: status line, then header lines.
    fn parse_header(header: String) -> (r: Result<(Status, HeaderMap), Error>)
        ensures
            match r {
                Ok(t) => spec_response_header(header@) == Some((t.0, t.1@)),
                Err(e) => spec_response_header(header@) is None && e is BadResponse,
            },
    {
        proof {
            reveal_strlit("\r\n");
        }
        let lines = split_string(header.as_str(), "\r\n");
        proof {
            assert(views_of(lines@)[0] == lines@[0]@);
        }
        let status = match Response::parse_response_line(lines[0].as_str()) {
            Ok(value) => value,
            Err(e) => {
                return Err(e);
            },
        };
        let mut headers = HeaderMap::new();
        if !add_header_lines(&mut headers, &lines, 1) {
            return Err(Error::BadResponse);
        }
        Ok((status, headers))
    }

    /// Parses `HTTP/1.1 SP CODE SP REASON...` and validates the pair
    /// against the registry.
    fn parse_response_line(response_line: &str) -> (r: Result<Status, Error>)
        ensures
            match r {
                Ok(s) => spec_response_line(response_line@) == Some(s),
                Err(e) => spec_response_line(response_line@) is None && e is BadResponse,
            },
    {
        proof {
            reveal_strlit(" ");
        }
        let parts = split_string(response_line, " ");
        proof {
            assert(views_of(parts@).len() == parts@.len());
            assert(views_of(parts@)[0] == parts@[0]@);
        }
        if !str_eq(parts[0].as_str(), "HTTP/1.1") {
            return Err(Error::BadResponse);
        }
        if parts.len() < 2 {
            return Err(Error::BadResponse);
        }
        proof {
            assert(views_of(parts@)[1] == parts@[1]@);
        }
        let code = match parse_usize(parts[1].as_str()) {
            Some(c) => c,
            None => {
                return Err(Error::BadResponse);
            },
        };
        let raw = concat_each_from(&parts, 2, " ");
        let phrase = trim(raw.as_str());
        Status::parse(code, phrase)
    }

    /// Compiles the response for the wire: the status line, one line per
    /// header, a blank line, and the body verbatim. `Content-Length` is
    /// always overwritten with the body's exact byte count,
    /// `Content-Type` defaults to `text/plain` only if unset, and the
    /// `Server` identification is always stamped.
    pub fn compile(self) -> (r: Vec<u8>)
        ensures
            r@ == spec_response_compile(self@),
    {
        let mut this = self;
        let len: usize = this.body.len();
        this.headers.insert("Content-Length".to_owned(), usize_to_string(len));
        if !this.headers.contains_key("Content-Type") {
            this.headers.insert("Content-Type".to_owned(), "text/plain".to_owned());
        }
        this.headers.insert("Server".to_owned(), "Hart/1.0.0".to_owned());
        let mut text = String::new();
        text.append("HTTP/1.1 ");
        text.append(usize_to_string(this.status.code()).as_str());
        text.append(" ");
        text.append(this.status.reason_phrase());
        text.append("\r\n");
        text.append(this.headers.render_lines().as_str());
        text.append("\r\n");
        proof {
            assert(text@ =~= spec_status_line(self@.status) + spec_header_lines(
                spec_generated_headers(self@.headers, self@.body.len()),
            ) + "\r\n"@);
        }
        let mut out = text.as_str().as_bytes_vec();
        let mut body = this.body;
        out.append(&mut body);
        out
    }

    pub fn status(&self) -> (r: Status)
        ensures
            r == self@.status,
    {
        self.status
    }

    pub fn headers(&self) -> (r: &HeaderMap)
        ensures
            r@ == self@.headers,
    {
        &self.headers
    }

    pub fn body(&self) -> (r: &Vec<u8>)
        ensures
            r@ == self@.body,
    {
        &self.body
    }
}

} // verus!
