//! The header block of an inbound request, parsed from its text: request
//! line, then header lines up to the blank line, each deviation reported
//! as its own error.

use vstd::prelude::*;

use super::method::spec_method_parse;
use super::method::InvalidMethodError;
use super::method::Method;
use crate::header_map::keys_unique;
use crate::header_map::lemma_insert_preserves_unique;
use crate::header_map::parse_header_line;
use crate::header_map::spec_header_line;
use crate::header_map::spec_get;
use crate::header_map::spec_insert;
use crate::header_map::HeaderMap;
use crate::text::spec_split;
use crate::text::spec_trim;
use crate::text::split_string;
use crate::text::str_eq;
use crate::text::trim;
use crate::text::views_of;

verus! {

/// How the parsing of a request header block can fail.
#[derive(Debug)]
pub enum RequestParseError {
    NoRequestLine,
    InvalidEnding,
    InvalidHeaderLine(String),
    InvalidMethod(InvalidMethodError),
    NoURI,
    InvalidHTTPVersion,
    NoVersion,
    RequestLineTooLong,
}

/// The shape of a parse error, payload text as character sequences.
pub enum RequestParseErrorView {
    NoRequestLine,
    InvalidEnding,
    InvalidHeaderLine(Seq<char>),
    InvalidMethod(Seq<char>),
    NoURI,
    InvalidHTTPVersion,
    NoVersion,
    RequestLineTooLong,
}

impl View for RequestParseError {
    type V = RequestParseErrorView;

    closed spec fn view(&self) -> RequestParseErrorView {
        match self {
            RequestParseError::NoRequestLine => RequestParseErrorView::NoRequestLine,
            RequestParseError::InvalidEnding => RequestParseErrorView::InvalidEnding,
            RequestParseError::InvalidHeaderLine(line) => RequestParseErrorView::InvalidHeaderLine(
                line@,
            ),
            RequestParseError::InvalidMethod(e) => RequestParseErrorView::InvalidMethod(e@),
            RequestParseError::NoURI => RequestParseErrorView::NoURI,
            RequestParseError::InvalidHTTPVersion => RequestParseErrorView::InvalidHTTPVersion,
            RequestParseError::NoVersion => RequestParseErrorView::NoVersion,
            RequestParseError::RequestLineTooLong => RequestParseErrorView::RequestLineTooLong,
        }
    }
}

/// The diagnostics text of a parse error.
pub open spec fn spec_parse_error_message(e: RequestParseErrorView) -> Seq<char> {
    match e {
        RequestParseErrorView::NoRequestLine => "No request line"@,
        RequestParseErrorView::InvalidEnding => "Invalid request header ending"@,
        RequestParseErrorView::InvalidHeaderLine(line) => "Invalid header line ("@ + line + ")"@,
        RequestParseErrorView::InvalidMethod(token) => "Invalid method ("@ + token + ")"@,
        RequestParseErrorView::NoURI => "No URI"@,
        RequestParseErrorView::InvalidHTTPVersion => "Invalid HTTP version"@,
        RequestParseErrorView::NoVersion => "No version"@,
        RequestParseErrorView::RequestLineTooLong => "Request line too long"@,
    }
}

impl RequestParseError {
    /// A line of diagnostics text describing the error.
    pub fn message(&self) -> (r: String)
        ensures
            r@ == spec_parse_error_message(self@),
    {
        match self {
            RequestParseError::NoRequestLine => "No request line".to_owned(),
            RequestParseError::InvalidEnding => "Invalid request header ending".to_owned(),
            RequestParseError::InvalidHeaderLine(line) => {
                let mut s = String::new();
                s.append("Invalid header line (");
                s.append(line.as_str());
                s.append(")");
                proof {
                    assert(s@ =~= "Invalid header line ("@ + line@ + ")"@);
                }
                s
            },
            RequestParseError::InvalidMethod(e) => e.message(),
            RequestParseError::NoURI => "No URI".to_owned(),
            RequestParseError::InvalidHTTPVersion => "Invalid HTTP version".to_owned(),
            RequestParseError::NoVersion => "No version".to_owned(),
            RequestParseError::RequestLineTooLong => "Request line too long".to_owned(),
        }
    }
}

/// The shape of a parsed header block.
pub struct HeaderView {
    pub method: Method,
    pub uri: Seq<char>,
    pub headers: Seq<(Seq<char>, Seq<char>)>,
}

/// The header block of an inbound request: method, target, and headers.
pub struct Header {
    method: Method,
    uri: String,
    headers: HeaderMap,
}

impl View for Header {
    type V = HeaderView;

    closed spec fn view(&self) -> HeaderView {
        HeaderView { method: self.method, uri: self.uri@, headers: self.headers@ }
    }
}

/// A request line, each token trimmed: a known method, a target, the exact
/// version literal, and nothing after it; each deviation is its own error.
pub open spec fn spec_request_line(line: Seq<char>) -> Result<(Method, Seq<char>),
    RequestParseErrorView> {
    let parts = spec_split(line, " "@);
    if spec_method_parse(spec_trim(parts[0])) is None {
        Err(RequestParseErrorView::InvalidMethod(spec_trim(parts[0])))
    } else if parts.len() < 2 {
        Err(RequestParseErrorView::NoURI)
    } else if parts.len() < 3 {
        Err(RequestParseErrorView::NoVersion)
    } else if spec_trim(parts[2]) != "HTTP/1.1"@ {
        Err(RequestParseErrorView::InvalidHTTPVersion)
    } else if parts.len() > 3 {
        Err(RequestParseErrorView::RequestLineTooLong)
    } else {
        Ok((spec_method_parse(spec_trim(parts[0])).unwrap(), spec_trim(parts[1])))
    }
}

/// Header lines folded into a map; a trimmed empty line ends the block,
/// a line without `:` is malformed, and a missing end line spoils the
/// whole block.
pub open spec fn spec_header_block(
    m: Seq<(Seq<char>, Seq<char>)>,
    lines: Seq<Seq<char>>,
) -> Result<Seq<(Seq<char>, Seq<char>)>, RequestParseErrorView>
    decreases lines.len(),
{
    if lines.len() == 0 {
        Err(RequestParseErrorView::InvalidEnding)
    } else {
        let line = spec_trim(lines[0]);
        if line.len() == 0 {
            Ok(m)
        } else {
            match spec_header_line(line) {
                None => Err(RequestParseErrorView::InvalidHeaderLine(line)),
                Some(p) => spec_header_block(spec_insert(m, p.0, p.1), lines.skip(1)),
            }
        }
    }
}

/// A whole header block from its text.
pub open spec fn spec_header_parse(s: Seq<char>) -> Result<HeaderView, RequestParseErrorView> {
    let lines = spec_split(s, "\r\n"@);
    match spec_request_line(spec_trim(lines[0])) {
        Err(e) => Err(e),
        Ok((m, uri)) => match spec_header_block(
            Seq::<(Seq<char>, Seq<char>)>::empty(),
            lines.skip(1),
        ) {
            Err(e) => Err(e),
            Ok(hm) => Ok(HeaderView { method: m, uri, headers: hm }),
        },
    }
}

/// Parsing preserves the map invariant: folding a block of header lines
/// into a map whose names do not repeat leaves the names without
/// repetition.
pub proof fn lemma_header_block_unique(m: Seq<(Seq<char>, Seq<char>)>, lines: Seq<Seq<char>>)
    requires
        keys_unique(m),
    ensures
        spec_header_block(m, lines) matches Ok(hm) ==> keys_unique(hm),
    decreases lines.len(),
{
    if lines.len() > 0 {
        let line = spec_trim(lines[0]);
        if line.len() != 0 {
            match spec_header_line(line) {
                None => {},
                Some(p) => {
                    lemma_insert_preserves_unique(m, p.0, p.1);
                    lemma_header_block_unique(spec_insert(m, p.0, p.1), lines.skip(1));
                },
            }
        }
    }
}

/// The header-map invariant holds of every parsed header block: at most
/// one value is retained per literal name.
pub proof fn lemma_header_parse_unique(s: Seq<char>)
    ensures
        spec_header_parse(s) matches Ok(h) ==> keys_unique(h.headers),
{
    let lines = spec_split(s, "\r\n"@);
    lemma_header_block_unique(Seq::<(Seq<char>, Seq<char>)>::empty(), lines.skip(1));
}

impl Header {
    /// Parses a request header block from its text.
    pub fn parse(s: &str) -> (r: Result<Header, RequestParseError>)
        ensures
            match r {
                Ok(h) => spec_header_parse(s@) == Ok::<HeaderView, RequestParseErrorView>(h@),
                Err(e) => spec_header_parse(s@) == Err::<HeaderView, RequestParseErrorView>(e@),
            },
    {
        proof {
            reveal_strlit("\r\n");
        }
        let lines = split_string(s, "\r\n");
        proof {
            assert(views_of(lines@)[0] == lines@[0]@);
        }
        let (method, uri) = match Header::parse_request_line(trim(lines[0].as_str())) {
            Ok(value) => value,
            Err(e) => {
                return Err(e);
            },
        };
        let n: usize = lines.len();
        let mut headers = HeaderMap::new();
        let mut i: usize = 1;
        while i < n
            invariant
                1 <= i <= n,
                n == lines@.len(),
                "\r\n"@.len() == 2,
                views_of(lines@) == spec_split(s@, "\r\n"@),
                spec_request_line(spec_trim(views_of(lines@)[0])) == Ok::<(Method, Seq<char>),
                    RequestParseErrorView>((method, uri@)),
                spec_header_block(headers@, views_of(lines@).skip(i as int)) == spec_header_block(
                    Seq::<(Seq<char>, Seq<char>)>::empty(),
                    views_of(lines@).skip(1),
                ),
            decreases n - i,
        {
            proof {
                assert(views_of(lines@).skip(i as int)[0] == views_of(lines@)[i as int]);
                assert(views_of(lines@)[i as int] == lines@[i as int]@);
                assert(views_of(lines@).skip(i as int).skip(1) =~= views_of(lines@).skip(i + 1));
            }
            let line = trim(lines[i].as_str());
            if line.unicode_len() == 0 {
                proof {
                    assert(spec_header_block(headers@, views_of(lines@).skip(i as int)) == Ok::<
                        _,
                        RequestParseErrorView,
                    >(headers@));
                    assert(spec_split(s@, "\r\n"@) == views_of(lines@));
                    assert(spec_header_parse(s@) == Ok::<HeaderView, RequestParseErrorView>(
                        HeaderView { method: method, uri: uri@, headers: headers@ },
                    ));
                }
                return Ok(Header { method, uri, headers });
            }
            match parse_header_line(line) {
                Some(pair) => {
                    headers.insert(pair.0, pair.1);
                },
                None => {
                    proof {
                        assert(spec_header_block(headers@, views_of(lines@).skip(i as int))
                            == Err::<Seq<(Seq<char>, Seq<char>)>, _>(
                            RequestParseErrorView::InvalidHeaderLine(line@),
                        ));
                    }
                    return Err(RequestParseError::InvalidHeaderLine(line.to_owned()));
                },
            }
            i += 1;
        }
        proof {
            assert(views_of(lines@).skip(n as int) =~= Seq::<Seq<char>>::empty());
        }
        Err(RequestParseError::InvalidEnding)
    }

    /// Parses the request line, tokens trimmed, with a distinct error for
    /// each malformation.
    fn parse_request_line(line: &str) -> (r: Result<(Method, String), RequestParseError>)
        ensures
            match r {
                Ok(t) => spec_request_line(line@) == Ok::<(Method, Seq<char>),
                    RequestParseErrorView>((t.0, t.1@)),
                Err(e) => spec_request_line(line@) == Err::<(Method, Seq<char>),
                    RequestParseErrorView>(e@),
            },
    {
        proof {
            reveal_strlit(" ");
        }
        let parts = split_string(line, " ");
        proof {
            assert(views_of(parts@).len() == parts@.len());
            assert(views_of(parts@)[0] == parts@[0]@);
        }
        let method = match Method::parse(trim(parts[0].as_str())) {
            Ok(m) => m,
            Err(e) => {
                return Err(RequestParseError::InvalidMethod(e));
            },
        };
        if parts.len() < 2 {
            return Err(RequestParseError::NoURI);
        }
        proof {
            assert(views_of(parts@)[1] == parts@[1]@);
        }
        let uri = trim(parts[1].as_str()).to_owned();
        if parts.len() < 3 {
            return Err(RequestParseError::NoVersion);
        }
        proof {
            assert(views_of(parts@)[2] == parts@[2]@);
        }
        if !str_eq(trim(parts[2].as_str()), "HTTP/1.1") {
            return Err(RequestParseError::InvalidHTTPVersion);
        }
        if parts.len() > 3 {
            return Err(RequestParseError::RequestLineTooLong);
        }
        Ok((method, uri))
    }

    /// The value stored under `key`, if any.
    pub fn get_header(&self, key: &str) -> (r: Option<&str>)
        ensures
            match r {
                Some(v) => spec_get(self@.headers, key@) == Some(v@),
                None => spec_get(self@.headers, key@) is None,
            },
    {
        match self.headers.get(key) {
            Some(v) => Some(v.as_str()),
            None => None,
        }
    }

    pub fn method(&self) -> (r: Method)
        ensures
            r == self@.method,
    {
        self.method
    }

    pub fn uri(&self) -> (r: &str)
        ensures
            r@ == self@.uri,
    {
        self.uri.as_str()
    }
}

} // verus!
