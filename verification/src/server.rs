//! The server side of the engine: the application handler interface and the
//! decision logic of the persistent-connection handler. The transport loop
//! that reads and writes sockets lives with the embedding application; it
//! feeds bytes in and carries responses out through the functions here.

pub mod read;
pub mod request;
pub mod response;

pub use read::ReadError;
pub use request::Request;
pub use response::Response;

use vstd::prelude::*;

use crate::header_map::spec_get;
use crate::response::Status;
use crate::std_bridge::io_error_message;
use crate::text::str_eq;
use read::ReadErrorView;
use request::header::spec_parse_error_message;

verus! {

/// The application boundary: one operation, turning a request into a
/// response. Supplied by the embedding application; invoked once per
/// request, possibly from many connections at once.
pub trait Server: Send + Sync {
    fn handle_request(&self, request: Request) -> Response;
}

/// How serving one client can fail.
#[derive(Debug)]
pub enum HandleClientError {
    AcceptClientError(std::io::Error),
    ReadRequestError(ReadError),
    WriteResponseError(std::io::Error),
}

/// The shape of a client-handling error; the transport payloads are
/// opaque values.
pub enum HandleClientErrorView {
    AcceptClientError,
    ReadRequestError(ReadErrorView),
    WriteResponseError,
}

impl View for HandleClientError {
    type V = HandleClientErrorView;

    closed spec fn view(&self) -> HandleClientErrorView {
        match self {
            HandleClientError::AcceptClientError(_) => HandleClientErrorView::AcceptClientError,
            HandleClientError::ReadRequestError(e) => HandleClientErrorView::ReadRequestError(e@),
            HandleClientError::WriteResponseError(_) => HandleClientErrorView::WriteResponseError,
        }
    }
}

impl HandleClientError {
    /// A line of diagnostics text describing the error.
    pub fn message(&self) -> (r: String)
        ensures
            self@ matches HandleClientErrorView::ReadRequestError(
                ReadErrorView::RequestParseError(pe),
            ) ==> r@ == "Failed to read request - "@ + "Unable to parse request ("@
                + spec_parse_error_message(pe) + ")"@,
    {
        match self {
            HandleClientError::AcceptClientError(e) => {
                let mut s = String::new();
                s.append("Unable to accept client (");
                s.append(io_error_message(e).as_str());
                s.append(")");
                s
            },
            HandleClientError::ReadRequestError(e) => {
                let mut s = String::new();
                s.append("Failed to read request - ");
                s.append(e.message().as_str());
                s
            },
            HandleClientError::WriteResponseError(e) => {
                let mut s = String::new();
                s.append("Unable to write response (");
                s.append(io_error_message(e).as_str());
                s.append(")");
                s
            },
        }
    }
}

/// Whether a request asks for the connection to stay open: its
/// `Connection` header must be exactly `keep-alive`.
pub open spec fn spec_keep_alive(headers: Seq<(Seq<char>, Seq<char>)>) -> bool {
    spec_get(headers, "Connection"@) == Some("keep-alive"@)
}

/// The keep-alive decision for one request.
pub fn connection_keep_alive(request: &Request) -> (r: bool)
    ensures
        r == spec_keep_alive(request@.header.headers),
{
    match request.header().get_header("Connection") {
        Some(value) => str_eq(value, "keep-alive"),
        None => false,
    }
}

/// One request/response exchange: the handler produces the response, and
/// the request's own `Connection` header decides whether the connection
/// stays open afterwards.
pub fn process_request<S: Server>(server: &S, request: Request) -> (r: (Response, bool))
    ensures
        r.1 == spec_keep_alive(request@.header.headers),
{
    let keep_alive = connection_keep_alive(&request);
    let response = server.handle_request(request);
    (response, keep_alive)
}

/// The recovery response for a malformed request: `400 Bad Request`,
/// carrying the error's diagnostics text as its body.
pub fn bad_request_response(error: &ReadError) -> (r: Response)
    ensures
        r@.header.status_code == 400,
        r@.header.reason_phrase == "Bad Request"@,
        r@.header.headers == Seq::<(Seq<char>, Seq<char>)>::empty(),
        r@.body matches Some(_),
        error@ matches ReadErrorView::RequestParseError(pe) ==> r@.body == Some(
            "Unable to parse request ("@ + spec_parse_error_message(pe) + ")"@,
        ),
        error@ matches ReadErrorView::InvalidContentLength(value) ==> r@.body == Some(
            "Invalid Content-Length value ("@ + value + ")"@,
        ),
{
    Response::new_status(Status::BadRequest, Some(error.message()))
}

/// The recovery response for a handler failure: `500 Internal Server
/// Error`, carrying the failure text as its body.
pub fn internal_error_response(message: String) -> (r: Response)
    ensures
        r@.header.status_code == 500,
        r@.header.reason_phrase == "Internal Server Error"@,
        r@.header.headers == Seq::<(Seq<char>, Seq<char>)>::empty(),
        r@.body == Some(message@),
{
    Response::new_status(Status::InternalServerError, Some(message))
}

} // verus!
