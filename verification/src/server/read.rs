//! Interpreting the bytes read from a connection: recognizing the end of
//! the header block, decoding and parsing it, sizing the body, and
//! assembling the request. The byte-by-byte socket reads themselves belong
//! to the embedding application, which calls these functions between them.

use vstd::prelude::*;
use vstd::utf8::decode_utf8;
use vstd::utf8::valid_utf8;

use super::request::header::spec_header_parse;
use super::request::header::HeaderView;
use super::request::header::RequestParseErrorView;
use super::request::Header;
use super::request::Request;
use super::request::RequestParseError;
use crate::framing::find_terminator;
use crate::framing::terminator;
use crate::header_map::spec_get;
use crate::text::first_match;
use crate::text::lemma_first_match;
use crate::std_bridge::io_error_message;
use crate::std_bridge::utf8_error_message;
use crate::std_bridge::vec_to_string;
use crate::text::parse_usize;
use crate::text::spec_parse_usize;

verus! {

/// How reading one request from a connection can fail.
#[derive(Debug)]
pub enum ReadError {
    ReadError(std::io::Error),
    InvalidUTF8(std::string::FromUtf8Error),
    RequestParseError(RequestParseError),
    InvalidContentLength(String),
}

/// The shape of a read error; the transport and decoder payloads are
/// opaque values.
pub enum ReadErrorView {
    ReadError,
    InvalidUTF8,
    RequestParseError(RequestParseErrorView),
    InvalidContentLength(Seq<char>),
}

impl View for ReadError {
    type V = ReadErrorView;

    closed spec fn view(&self) -> ReadErrorView {
        match self {
            ReadError::ReadError(_) => ReadErrorView::ReadError,
            ReadError::InvalidUTF8(_) => ReadErrorView::InvalidUTF8,
            ReadError::RequestParseError(e) => ReadErrorView::RequestParseError(e@),
            ReadError::InvalidContentLength(s) => ReadErrorView::InvalidContentLength(s@),
        }
    }
}

impl From<std::io::Error> for ReadError {
    fn from(error: std::io::Error) -> (r: ReadError) {
        ReadError::ReadError(error)
    }
}

impl vstd::std_specs::convert::FromSpecImpl<std::io::Error> for ReadError {
    open spec fn obeys_from_spec() -> bool {
        true
    }

    open spec fn from_spec(error: std::io::Error) -> ReadError {
        ReadError::ReadError(error)
    }
}

impl From<std::string::FromUtf8Error> for ReadError {
    fn from(error: std::string::FromUtf8Error) -> (r: ReadError) {
        ReadError::InvalidUTF8(error)
    }
}

impl vstd::std_specs::convert::FromSpecImpl<std::string::FromUtf8Error> for ReadError {
    open spec fn obeys_from_spec() -> bool {
        true
    }

    open spec fn from_spec(error: std::string::FromUtf8Error) -> ReadError {
        ReadError::InvalidUTF8(error)
    }
}

impl From<RequestParseError> for ReadError {
    fn from(error: RequestParseError) -> (r: ReadError) {
        ReadError::RequestParseError(error)
    }
}

impl vstd::std_specs::convert::FromSpecImpl<RequestParseError> for ReadError {
    open spec fn obeys_from_spec() -> bool {
        true
    }

    open spec fn from_spec(error: RequestParseError) -> ReadError {
        ReadError::RequestParseError(error)
    }
}

impl ReadError {
    /// A line of diagnostics text describing the error.
    pub fn message(&self) -> (r: String)
        ensures
            self@ matches ReadErrorView::RequestParseError(pe) ==> r@ == "Unable to parse request ("@
                + super::request::header::spec_parse_error_message(pe) + ")"@,
            self@ matches ReadErrorView::InvalidContentLength(s) ==> r@
                == "Invalid Content-Length value ("@ + s + ")"@,
    {
        match self {
            ReadError::ReadError(e) => {
                let mut s = String::new();
                s.append("Unable to read request (");
                s.append(io_error_message(e).as_str());
                s.append(")");
                s
            },
            ReadError::InvalidUTF8(e) => {
                let mut s = String::new();
                s.append("Invalid UTF-8 (");
                s.append(utf8_error_message(e).as_str());
                s.append(")");
                s
            },
            ReadError::RequestParseError(e) => {
                let mut s = String::new();
                s.append("Unable to parse request (");
                s.append(e.message().as_str());
                s.append(")");
                proof {
                    assert(s@ =~= "Unable to parse request ("@
                        + super::request::header::spec_parse_error_message(e@) + ")"@);
                }
                s
            },
            ReadError::InvalidContentLength(v) => {
                let mut s = String::new();
                s.append("Invalid Content-Length value (");
                s.append(v.as_str());
                s.append(")");
                proof {
                    assert(s@ =~= "Invalid Content-Length value ("@ + v@ + ")"@);
                }
                s
            },
        }
    }
}

/// Whether the bytes read so far end with the header terminator, the
/// stopping rule of the header read loop.
pub fn header_complete(buffer: &Vec<u8>) -> (r: bool)
    ensures
        r == (buffer@.len() >= 4 && buffer@.subrange(
            buffer@.len() - 4,
            buffer@.len() as int,
        ) == terminator()),
{
    let n: usize = buffer.len();
    if n < 4 {
        return false;
    }
    let r = buffer[n - 4] == 13 && buffer[n - 3] == 10 && buffer[n - 2] == 13 && buffer[n - 1]
        == 10;
    proof {
        let tail = buffer@.subrange(n - 4, n as int);
        if r {
            assert(tail =~= terminator());
        }
        if tail == terminator() {
            assert(tail[0] == 13 && tail[1] == 10 && tail[2] == 13 && tail[3] == 10);
        }
    }
    r
}

/// Decodes a complete header block and parses it.
pub fn decode_header(buffer: Vec<u8>) -> (r: Result<Header, ReadError>)
    ensures
        match r {
            Ok(h) => valid_utf8(buffer@) && spec_header_parse(decode_utf8(buffer@))
                == Ok::<_, RequestParseErrorView>(h@),
            Err(e) => match e@ {
                ReadErrorView::InvalidUTF8 => !valid_utf8(buffer@),
                ReadErrorView::RequestParseError(pe) => valid_utf8(buffer@) && spec_header_parse(
                    decode_utf8(buffer@),
                ) == Err::<super::request::header::HeaderView, _>(pe),
                _ => false,
            },
        },
{
    let text = match vec_to_string(buffer) {
        Ok(text) => text,
        Err(e) => {
            return Err(ReadError::InvalidUTF8(e));
        },
    };
    match Header::parse(text.as_str()) {
        Ok(h) => Ok(h),
        Err(e) => Err(ReadError::RequestParseError(e)),
    }
}

/// The announced body length of a parsed header: the `Content-Length`
/// value when one is present and numeric, zero when the header is absent,
/// and a content-length-specific error when it does not parse.
pub fn body_length(header: &Header) -> (r: Result<usize, ReadError>)
    ensures
        match r {
            Ok(n) => (spec_get(header@.headers, "Content-Length"@) is None && n == 0) || (
            spec_get(header@.headers, "Content-Length"@) matches Some(v) && spec_parse_usize(v)
                == Some(n)),
            Err(e) => e@ matches ReadErrorView::InvalidContentLength(s) && spec_get(
                header@.headers,
                "Content-Length"@,
            ) == Some(s) && spec_parse_usize(s) is None,
        },
{
    match header.get_header("Content-Length") {
        None => Ok(0),
        Some(value) => match parse_usize(value) {
            Some(n) => Ok(n),
            None => Err(ReadError::InvalidContentLength(value.to_owned())),
        },
    }
}

/// The outcome of taking one request from the front of a buffered stream.
pub enum BufferedReadView {
    /// The buffer does not yet hold a complete request.
    NeedMore,
    /// The bytes read so far are malformed.
    Failed(ReadErrorView),
    /// A complete request: its header, its body text, and how many bytes
    /// of the stream it occupied.
    Done(HeaderView, Seq<char>, int),
}

/// One request taken from the front of a byte stream: the header block up
/// to and including the first terminator, then exactly the count of body
/// bytes the `Content-Length` header announces — not a byte more.
pub open spec fn spec_take_request(input: Seq<u8>) -> BufferedReadView {
    match first_match(input, terminator(), 0) {
        None => BufferedReadView::NeedMore,
        Some(i) => {
            let header_bytes = input.take(i + 4);
            if !valid_utf8(header_bytes) {
                BufferedReadView::Failed(ReadErrorView::InvalidUTF8)
            } else {
                match spec_header_parse(decode_utf8(header_bytes)) {
                    Err(pe) => BufferedReadView::Failed(ReadErrorView::RequestParseError(pe)),
                    Ok(h) => match spec_get(h.headers, "Content-Length"@) {
                        Some(v) => match spec_parse_usize(v) {
                            None => BufferedReadView::Failed(
                                ReadErrorView::InvalidContentLength(v),
                            ),
                            Some(n) => spec_take_body(input, h, i + 4, n as int),
                        },
                        None => spec_take_body(input, h, i + 4, 0),
                    },
                }
            }
        },
    }
}

/// The body of a buffered request: exactly `n` bytes from `from` on, when
/// the buffer holds that many and they decode as text.
pub open spec fn spec_take_body(input: Seq<u8>, h: HeaderView, from: int, n: int)
    -> BufferedReadView {
    if from + n > input.len() {
        BufferedReadView::NeedMore
    } else if !valid_utf8(input.subrange(from, from + n)) {
        BufferedReadView::Failed(ReadErrorView::InvalidUTF8)
    } else {
        BufferedReadView::Done(h, decode_utf8(input.subrange(from, from + n)), from + n)
    }
}

/// Takes one request from the front of a buffered stream, as the
/// connection handler assembles it: the header block up to the first
/// terminator, then exactly the announced count of body bytes. The
/// returned count says how many bytes were consumed; no byte beyond it is
/// read. Nothing is returned while the buffer holds no complete request.
pub fn take_buffered_request(input: &Vec<u8>) -> (r: Result<Option<(Request, usize)>, ReadError>)
    ensures
        match r {
            Ok(None) => spec_take_request(input@) is NeedMore,
            Ok(Some(p)) => spec_take_request(input@) == BufferedReadView::Done(
                p.0@.header,
                p.0@.body,
                p.1 as int,
            ) && p.1 <= input@.len(),
            Err(e) => spec_take_request(input@) == BufferedReadView::Failed(e@),
        },
{
    let end = match find_terminator(input) {
        Some(i) => i,
        None => {
            return Ok(None);
        },
    };
    proof {
        lemma_first_match(input@, terminator(), 0);
    }
    let total: usize = input.len();
    let header_end: usize = end + 4;
    let mut header_bytes: Vec<u8> = Vec::new();
    let mut j: usize = 0;
    while j < header_end
        invariant
            j <= header_end,
            header_end <= input@.len(),
            header_end == end + 4,
            header_bytes@ == input@.subrange(0, j as int),
        decreases header_end - j,
    {
        header_bytes.push(input[j]);
        proof {
            assert(input@.subrange(0, j as int).push(input@[j as int]) =~= input@.subrange(
                0,
                j + 1,
            ));
        }
        j += 1;
    }
    proof {
        assert(input@.subrange(0, end + 4) =~= input@.take(end + 4));
    }
    let header = match decode_header(header_bytes) {
        Ok(h) => h,
        Err(e) => {
            return Err(e);
        },
    };
    let length = match body_length(&header) {
        Ok(n) => n,
        Err(e) => {
            return Err(e);
        },
    };
    let available = total - header_end;
    if length > available {
        return Ok(None);
    }
    let body_end: usize = header_end + length;
    let mut body: Vec<u8> = Vec::new();
    let mut k: usize = header_end;
    proof {
        assert(input@.subrange(end + 4, end + 4) =~= Seq::<u8>::empty());
    }
    while k < body_end
        invariant
            header_end <= k <= body_end,
            body_end <= input@.len(),
            header_end == end + 4,
            body_end == end + 4 + length,
            body@ == input@.subrange(end + 4, k as int),
        decreases body_end - k,
    {
        body.push(input[k]);
        proof {
            assert(input@.subrange(end + 4, k as int).push(input@[k as int]) =~= input@.subrange(
                end + 4,
                k + 1,
            ));
        }
        k += 1;
    }
    match finish_request(header, body) {
        Ok(request) => Ok(Some((request, body_end))),
        Err(e) => Err(e),
    }
}

/// Assembles the request once exactly the announced body bytes have been
/// read; a body that is not UTF-8 is rejected.
pub fn finish_request(header: Header, body: Vec<u8>) -> (r: Result<Request, ReadError>)
    ensures
        match r {
            Ok(req) => valid_utf8(body@) && req@.header == header@ && req@.body == decode_utf8(
                body@,
            ),
            Err(e) => !valid_utf8(body@) && e@ is InvalidUTF8,
        },
{
    match vec_to_string(body) {
        Ok(text) => Ok(Request::new(header, text)),
        Err(e) => Err(ReadError::InvalidUTF8(e)),
    }
}

} // verus!
