//! The error type of the message engine's client-side operations: transport
//! failures carry the underlying I/O error, protocol failures say which part
//! of the exchange was malformed, down to the request-line token at fault.

use vstd::prelude::*;

use crate::std_bridge::io_error_message;
use crate::std_bridge::utf8_error_message;
use crate::text::match_at;

verus! {

#[derive(Debug)]
pub enum Error {
    // Transport failures, carrying the underlying I/O error.
    AcceptConnectionError(std::io::Error),
    ConnectionError(std::io::Error),
    RequestConversionError(std::string::FromUtf8Error),
    RequestReadError(std::io::Error),
    RequestWriteError(std::io::Error),
    ResponseReadError(std::io::Error),
    ResponseWriteError(std::io::Error),
    // Protocol failures.
    BadRequest,
    BadResponse,
    InvalidHeader,
    // Request-line failures, one per malformed part.
    InvalidMethod(String),
    NoURI,
    NoVersion,
    InvalidHTTPVersion,
    RequestLineTooLong,
}

/// The shape of an error; the transport payloads are opaque values, the
/// rejected method token is kept.
pub enum ErrorView {
    AcceptConnectionError,
    ConnectionError,
    RequestConversionError,
    RequestReadError,
    RequestWriteError,
    ResponseReadError,
    ResponseWriteError,
    BadRequest,
    BadResponse,
    InvalidHeader,
    InvalidMethod(Seq<char>),
    NoURI,
    NoVersion,
    InvalidHTTPVersion,
    RequestLineTooLong,
}

impl View for Error {
    type V = ErrorView;

    open spec fn view(&self) -> ErrorView {
        match self {
            Error::AcceptConnectionError(_) => ErrorView::AcceptConnectionError,
            Error::ConnectionError(_) => ErrorView::ConnectionError,
            Error::RequestConversionError(_) => ErrorView::RequestConversionError,
            Error::RequestReadError(_) => ErrorView::RequestReadError,
            Error::RequestWriteError(_) => ErrorView::RequestWriteError,
            Error::ResponseReadError(_) => ErrorView::ResponseReadError,
            Error::ResponseWriteError(_) => ErrorView::ResponseWriteError,
            Error::BadRequest => ErrorView::BadRequest,
            Error::BadResponse => ErrorView::BadResponse,
            Error::InvalidHeader => ErrorView::InvalidHeader,
            Error::InvalidMethod(token) => ErrorView::InvalidMethod(token@),
            Error::NoURI => ErrorView::NoURI,
            Error::NoVersion => ErrorView::NoVersion,
            Error::InvalidHTTPVersion => ErrorView::InvalidHTTPVersion,
            Error::RequestLineTooLong => ErrorView::RequestLineTooLong,
        }
    }
}

impl Error {
    /// A line of diagnostics text describing the error: exact for every
    /// protocol failure, a fixed prefix before the carried I/O error's
    /// own text for every transport failure.
    pub fn message(&self) -> (r: String)
        ensures
            self is AcceptConnectionError ==> match_at(r@, "Unable to accept client - "@, 0),
            self is ConnectionError ==> match_at(r@, "Connection error - "@, 0),
            self is RequestConversionError ==> match_at(r@, "Unable to convert request - "@, 0),
            self is RequestReadError ==> match_at(r@, "Unable to read request - "@, 0),
            self is RequestWriteError ==> match_at(r@, "Unable to write request - "@, 0),
            self is ResponseReadError ==> match_at(r@, "Unable to read response - "@, 0),
            self is ResponseWriteError ==> match_at(r@, "Unable to write response - "@, 0),
            self is BadRequest ==> r@ == "Bad request"@,
            self is BadResponse ==> r@ == "Bad response"@,
            self is InvalidHeader ==> r@ == "Invalid header"@,
            self@ matches ErrorView::InvalidMethod(token) ==> r@ == "Invalid method ("@ + token
                + ")"@,
            self is NoURI ==> r@ == "No URI"@,
            self is NoVersion ==> r@ == "No version"@,
            self is InvalidHTTPVersion ==> r@ == "Invalid HTTP version"@,
            self is RequestLineTooLong ==> r@ == "Request line too long"@,
    {
        match self {
            Error::AcceptConnectionError(e) => prefixed("Unable to accept client - ", e),
            Error::ConnectionError(e) => prefixed("Connection error - ", e),
            Error::RequestConversionError(e) => {
                let mut s = String::new();
                s.append("Unable to convert request - ");
                s.append(utf8_error_message(e).as_str());
                proof {
                    assert(match_at(s@, "Unable to convert request - "@, 0)) by {
                        assert(s@.subrange(0, "Unable to convert request - "@.len() as int)
                            =~= "Unable to convert request - "@);
                    }
                }
                s
            },
            Error::RequestReadError(e) => prefixed("Unable to read request - ", e),
            Error::RequestWriteError(e) => prefixed("Unable to write request - ", e),
            Error::ResponseReadError(e) => prefixed("Unable to read response - ", e),
            Error::ResponseWriteError(e) => prefixed("Unable to write response - ", e),
            Error::BadRequest => "Bad request".to_owned(),
            Error::BadResponse => "Bad response".to_owned(),
            Error::InvalidHeader => "Invalid header".to_owned(),
            Error::InvalidMethod(token) => {
                let mut s = String::new();
                s.append("Invalid method (");
                s.append(token.as_str());
                s.append(")");
                proof {
                    assert(s@ =~= "Invalid method ("@ + token@ + ")"@);
                }
                s
            },
            Error::NoURI => "No URI".to_owned(),
            Error::NoVersion => "No version".to_owned(),
            Error::InvalidHTTPVersion => "Invalid HTTP version".to_owned(),
            Error::RequestLineTooLong => "Request line too long".to_owned(),
        }
    }
}

/// The given prefix, then the I/O error's own text.
fn prefixed(prefix: &str, e: &std::io::Error) -> (r: String)
    ensures
        match_at(r@, prefix@, 0),
{
    let mut s = String::new();
    s.append(prefix);
    s.append(io_error_message(e).as_str());
    proof {
        assert(match_at(s@, prefix@, 0)) by {
            assert(s@.subrange(0, prefix@.len() as int) =~= prefix@);
        }
    }
    s
}

} // verus!
