//! The request side of the message engine: the HTTP method, and a request
//! that can be parsed from raw bytes or built for an outbound call and
//! compiled back to bytes.

use vstd::prelude::*;
use vstd::utf8::encode_utf8;

use crate::error::Error;
use crate::error::ErrorView;
use crate::framing::spec_frame;
use crate::framing::split_http_message;
use crate::header_map::spec_add_header_lines;
use crate::header_map::spec_get;
use crate::header_map::spec_header_lines;
use crate::header_map::spec_insert;
use crate::header_map::add_header_lines;
use crate::header_map::HeaderMap;
use crate::text::first_match;
use crate::text::find_str;
use crate::text::lemma_first_match;
use crate::text::parse_u16;
use crate::text::spec_parse_u16;
use crate::text::spec_split;
use crate::text::split_string;
use crate::text::str_eq;
use crate::text::views_of;

verus! {

/// The HTTP request methods.
#[derive(Debug, Clone, Copy, PartialEq, Eq, Structural)]
pub enum Method {
    OPTIONS,
    GET,
    HEAD,
    POST,
    PUT,
    DELETE,
    TRACE,
    CONNECT,
}

/// The exact wire token of a method.
pub open spec fn method_token(m: Method) -> Seq<char> {
    match m {
        Method::OPTIONS => "OPTIONS"@,
        Method::GET => "GET"@,
        Method::HEAD => "HEAD"@,
        Method::POST => "POST"@,
        Method::PUT => "PUT"@,
        Method::DELETE => "DELETE"@,
        Method::TRACE => "TRACE"@,
        Method::CONNECT => "CONNECT"@,
    }
}

/// The method a token denotes: an exact, case-sensitive match.
pub open spec fn spec_method_parse(s: Seq<char>) -> Option<Method> {
    if s == "OPTIONS"@ {
        Some(Method::OPTIONS)
    } else if s == "GET"@ {
        Some(Method::GET)
    } else if s == "HEAD"@ {
        Some(Method::HEAD)
    } else if s == "POST"@ {
        Some(Method::POST)
    } else if s == "PUT"@ {
        Some(Method::PUT)
    } else if s == "DELETE"@ {
        Some(Method::DELETE)
    } else if s == "TRACE"@ {
        Some(Method::TRACE)
    } else if s == "CONNECT"@ {
        Some(Method::CONNECT)
    } else {
        None
    }
}

impl Method {
    /// Parses a method token; any other token is rejected, never coerced,
    /// and the error names the offending token.
    pub fn parse(string: &str) -> (r: Result<Method, Error>)
        ensures
            match r {
                Ok(m) => spec_method_parse(string@) == Some(m),
                Err(e) => spec_method_parse(string@) is None && e@ == ErrorView::InvalidMethod(
                    string@,
                ),
            },
    {
        if str_eq(string, "OPTIONS") {
            Ok(Method::OPTIONS)
        } else if str_eq(string, "GET") {
            Ok(Method::GET)
        } else if str_eq(string, "HEAD") {
            Ok(Method::HEAD)
        } else if str_eq(string, "POST") {
            Ok(Method::POST)
        } else if str_eq(string, "PUT") {
            Ok(Method::PUT)
        } else if str_eq(string, "DELETE") {
            Ok(Method::DELETE)
        } else if str_eq(string, "TRACE") {
            Ok(Method::TRACE)
        } else if str_eq(string, "CONNECT") {
            Ok(Method::CONNECT)
        } else {
            Err(Error::InvalidMethod(string.to_owned()))
        }
    }

    /// The wire token of this method.
    pub fn as_str(&self) -> (r: &'static str)
        ensures
            r@ == method_token(*self),
    {
        match self {
            Method::OPTIONS => "OPTIONS",
            Method::GET => "GET",
            Method::HEAD => "HEAD",
            Method::POST => "POST",
            Method::PUT => "PUT",
            Method::DELETE => "DELETE",
            Method::TRACE => "TRACE",
            Method::CONNECT => "CONNECT",
        }
    }
}

/// Every method round-trips: parsing its own token gives it back.
pub proof fn lemma_method_round_trip(m: Method)
    ensures
        spec_method_parse(method_token(m)) == Some(m),
{
    reveal_strlit("OPTIONS");
    reveal_strlit("GET");
    reveal_strlit("HEAD");
    reveal_strlit("POST");
    reveal_strlit("PUT");
    reveal_strlit("DELETE");
    reveal_strlit("TRACE");
    reveal_strlit("CONNECT");
    assert("OPTIONS"@.len() == 7 && "OPTIONS"@[0] == 'O');
    assert("GET"@.len() == 3 && "GET"@[0] == 'G');
    assert("HEAD"@.len() == 4 && "HEAD"@[0] == 'H');
    assert("POST"@.len() == 4 && "POST"@[0] == 'P');
    assert("PUT"@.len() == 3 && "PUT"@[0] == 'P');
    assert("DELETE"@.len() == 6 && "DELETE"@[0] == 'D');
    assert("TRACE"@.len() == 5 && "TRACE"@[0] == 'T');
    assert("CONNECT"@.len() == 7 && "CONNECT"@[0] == 'C');
    match m {
        Method::OPTIONS => {
            assert(spec_method_parse("OPTIONS"@) == Some(Method::OPTIONS));
        },
        Method::GET => {
            assert(spec_method_parse("GET"@) == Some(Method::GET));
        },
        Method::HEAD => {
            assert(spec_method_parse("HEAD"@) == Some(Method::HEAD));
        },
        Method::POST => {
            assert(spec_method_parse("POST"@) == Some(Method::POST));
        },
        Method::PUT => {
            assert(spec_method_parse("PUT"@) == Some(Method::PUT));
        },
        Method::DELETE => {
            assert(spec_method_parse("DELETE"@) == Some(Method::DELETE));
        },
        Method::TRACE => {
            assert(spec_method_parse("TRACE"@) == Some(Method::TRACE));
        },
        Method::CONNECT => {
            assert(spec_method_parse("CONNECT"@) == Some(Method::CONNECT));
        },
    }
}

/// The shape of a request, as the contracts speak of it.
pub struct RequestView {
    pub method: Method,
    pub path: Seq<char>,
    pub headers: Seq<(Seq<char>, Seq<char>)>,
    pub body: Seq<u8>,
}

/// An HTTP request: request line, headers, and body.
pub struct Request {
    method: Method,
    path: String,
    headers: HeaderMap,
    body: Vec<u8>,
}

impl View for Request {
    type V = RequestView;

    closed spec fn view(&self) -> RequestView {
        RequestView {
            method: self.method,
            path: self.path@,
            headers: self.headers@,
            body: self.body@,
        }
    }
}

/// A request line `METHOD SP PATH SP HTTP/1.1`: exactly three tokens, a
/// known method, and the exact version literal.
pub open spec fn spec_request_line(line: Seq<char>) -> Option<(Method, Seq<char>)> {
    let parts = spec_split(line, " "@);
    if parts.len() == 3 && spec_method_parse(parts[0]) is Some && parts[2] == "HTTP/1.1"@ {
        Some((spec_method_parse(parts[0]).unwrap(), parts[1]))
    } else {
        None
    }
}

/// The named error for a malformed request line, one per malformed part;
/// meaningful when `spec_request_line` gives nothing.
pub open spec fn spec_request_line_error(line: Seq<char>) -> ErrorView {
    let parts = spec_split(line, " "@);
    if spec_method_parse(parts[0]) is None {
        ErrorView::InvalidMethod(parts[0])
    } else if parts.len() < 2 {
        ErrorView::NoURI
    } else if parts.len() < 3 {
        ErrorView::NoVersion
    } else if parts[2] != "HTTP/1.1"@ {
        ErrorView::InvalidHTTPVersion
    } else {
        ErrorView::RequestLineTooLong
    }
}

/// A request header block: the request line, then header lines.
pub open spec fn spec_request_header(h: Seq<char>) -> Option<(Method, Seq<char>, Seq<(Seq<char>,
    Seq<char>)>)> {
    let lines = spec_split(h, "\r\n"@);
    match spec_request_line(lines[0]) {
        None => None,
        Some((m, p)) => match spec_add_header_lines(
            Seq::<(Seq<char>, Seq<char>)>::empty(),
            lines.skip(1),
        ) {
            None => None,
            Some(hm) => Some((m, p, hm)),
        },
    }
}

/// A whole request from raw bytes: framing, then the header block; the
/// body is taken verbatim from the frame.
pub open spec fn spec_request_parse(b: Seq<u8>) -> Option<RequestView> {
    match spec_frame(b) {
        None => None,
        Some((h, body)) => match spec_request_header(h) {
            None => None,
            Some((m, p, hm)) => Some(RequestView { method: m, path: p, headers: hm, body }),
        },
    }
}

/// The address and port a `Host` header value names; the port defaults
/// to 80 when none is given.
pub open spec fn spec_host_addr(host: Seq<char>) -> Option<(Seq<char>, u16)> {
    match first_match(host, ":"@, 0) {
        Some(i) => match spec_parse_u16(host.skip(i + 1)) {
            Some(p) => Some((host.take(i), p)),
            None => None,
        },
        None => Some((host, 80)),
    }
}

/// The head of a compiled request: request line, header lines, blank line.
pub open spec fn spec_request_head(
    m: Method,
    path: Seq<char>,
    headers: Seq<(Seq<char>, Seq<char>)>,
) -> Seq<char> {
    method_token(m) + " "@ + path + " HTTP/1.1\r\n"@ + spec_header_lines(headers) + "\r\n"@
}

/// What compiling a request yields: the address and port to dial, and the
/// request bytes, head then body.
pub open spec fn spec_request_compile(v: RequestView) -> Option<(Seq<char>, u16, Seq<u8>)> {
    match spec_get(v.headers, "Host"@) {
        None => None,
        Some(host) => match spec_host_addr(host) {
            None => None,
            Some((addr, port)) => Some(
                (addr, port, encode_utf8(spec_request_head(v.method, v.path, v.headers)) + v.body),
            ),
        },
    }
}

const DEFAULT_HTTP_PORT: u16 = 80;

impl Request {
    /// An outbound request: seeded with the `Host` of its target and
    /// `Connection: close`, with an empty body.
    pub fn new(host: &str, method: Method, path: &str) -> (r: Request)
        ensures
            r@.method == method,
            r@.path == path@,
            r@.body == Seq::<u8>::empty(),
            r@.headers == seq![("Host"@, host@), ("Connection"@, "close"@)],
    {
        let mut headers = HeaderMap::new();
        headers.insert("Host".to_owned(), host.to_owned());
        headers.insert("Connection".to_owned(), "close".to_owned());
        proof {
            reveal_strlit("Host");
            reveal_strlit("Connection");
            assert("Host"@.len() == 4);
            assert("Connection"@.len() == 10);
            assert("Host"@ != "Connection"@);
            assert(spec_insert(Seq::<(Seq<char>, Seq<char>)>::empty(), "Host"@, host@) =~= seq![
                ("Host"@, host@)]);
            assert(seq![("Host"@, host@)][0].0 == "Host"@);
            assert(seq![("Host"@, host@)].skip(1) =~= Seq::<(Seq<char>, Seq<char>)>::empty());
            assert(spec_insert(Seq::<(Seq<char>, Seq<char>)>::empty(), "Connection"@, "close"@)
                =~= seq![("Connection"@, "close"@)]);
            assert(spec_insert(seq![("Host"@, host@)], "Connection"@, "close"@) =~= seq![
                ("Host"@, host@), ("Connection"@, "close"@)]);
        }
        Request { method, path: path.to_owned(), headers, body: Vec::new() }
    }

    /// Attaches a caller header to an outbound request; an earlier value
    /// under the same name is replaced.
    pub fn insert_header(&mut self, key: String, value: String)
        ensures
            final(self)@.method == old(self)@.method,
            final(self)@.path == old(self)@.path,
            final(self)@.headers == spec_insert(old(self)@.headers, key@, value@),
            final(self)@.body == old(self)@.body,
    {
        self.headers.insert(key, value);
    }

    /// Attaches the body bytes of an outbound request.
    pub fn set_body(&mut self, body: Vec<u8>)
        ensures
            final(self)@.method == old(self)@.method,
            final(self)@.path == old(self)@.path,
            final(self)@.headers == old(self)@.headers,
            final(self)@.body == body@,
    {
        self.body = body;
    }

    /// Parses a request from raw bytes. A framing or header-line failure
    /// is a bad request; a malformed request line is reported with the
    /// error naming the part at fault.
    pub fn parse(buffer: Vec<u8>) -> (r: Result<Request, Error>)
        ensures
            match r {
                Ok(req) => spec_request_parse(buffer@) == Some(req@),
                Err(e) => spec_request_parse(buffer@) is None && (match spec_frame(buffer@) {
                    None => e is BadRequest,
                    Some(frame) => {
                        let lines = spec_split(frame.0, "\r\n"@);
                        if spec_request_line(lines[0]) is None {
                            e@ == spec_request_line_error(lines[0])
                        } else {
                            e is BadRequest
                        }
                    },
                }),
            },
    {
        let (header, body) = match split_http_message(buffer) {
            Ok(value) => value,
            Err(()) => {
                return Err(Error::BadRequest);
            },
        };
        let (method, path, headers) = match Request::parse_header(header) {
            Ok(value) => value,
            Err(e) => {
                return Err(e);
            },
        };
        Ok(Request { method, path, headers, body })
    }

    /// Parses the header block: request line, then header lines.
    fn parse_header(header: String) -> (r: Result<(Method, String, HeaderMap), Error>)
        ensures
            match r {
                Ok(t) => spec_request_header(header@) == Some((t.0, t.1@, t.2@)),
                Err(e) => spec_request_header(header@) is None && {
                    let lines = spec_split(header@, "\r\n"@);
                    if spec_request_line(lines[0]) is None {
                        e@ == spec_request_line_error(lines[0])
                    } else {
                        e is BadRequest
                    }
                },
            },
    {
        proof {
            reveal_strlit("\r\n");
        }
        let lines = split_string(header.as_str(), "\r\n");
        proof {
            assert(views_of(lines@)[0] == lines@[0]@);
        }
        let (method, path) = match Request::parse_request_line(lines[0].as_str()) {
            Ok(value) => value,
            Err(e) => {
                return Err(e);
            },
        };
        let mut headers = HeaderMap::new();
        if !add_header_lines(&mut headers, &lines, 1) {
            return Err(Error::BadRequest);
        }
        Ok((method, path, headers))
    }

    /// Parses `METHOD SP PATH SP HTTP/1.1`; each deviation — unknown
    /// method, missing target, missing or wrong version, extra token —
    /// is rejected with its own named error.
    fn parse_request_line(request_line: &str) -> (r: Result<(Method, String), Error>)
        ensures
            match r {
                Ok(t) => spec_request_line(request_line@) == Some((t.0, t.1@)),
                Err(e) => spec_request_line(request_line@) is None && e@ == spec_request_line_error(
                    request_line@,
                ),
            },
    {
        proof {
            reveal_strlit(" ");
        }
        let parts = split_string(request_line, " ");
        proof {
            assert(views_of(parts@).len() == parts@.len());
            assert(views_of(parts@)[0] == parts@[0]@);
        }
        let method = match Method::parse(parts[0].as_str()) {
            Ok(m) => m,
            Err(e) => {
                return Err(e);
            },
        };
        if parts.len() < 2 {
            return Err(Error::NoURI);
        }
        proof {
            assert(views_of(parts@)[1] == parts@[1]@);
        }
        if parts.len() < 3 {
            return Err(Error::NoVersion);
        }
        proof {
            assert(views_of(parts@)[2] == parts@[2]@);
        }
        if !str_eq(parts[2].as_str(), "HTTP/1.1") {
            return Err(Error::InvalidHTTPVersion);
        }
        if parts.len() > 3 {
            return Err(Error::RequestLineTooLong);
        }
        Ok((method, parts[1].clone()))
    }

    /// Compiles the request for the wire: resolves the target address and
    /// port from the `Host` header and renders head and body.
    pub fn compile(self) -> (r: Result<(String, u16, Vec<u8>), Error>)
        ensures
            match r {
                Ok(t) => spec_request_compile(self@) == Some((t.0@, t.1, t.2@)),
                Err(e) => spec_request_compile(self@) is None && e is BadRequest,
            },
    {
        proof {
            reveal_strlit("Host");
            reveal_strlit(":");
        }
        let host = match self.headers.get("Host") {
            Some(host) => host.clone(),
            None => {
                return Err(Error::BadRequest);
            },
        };
        let host_len: usize = host.as_str().unicode_len();
        let (addr, port) = match find_str(host.as_str(), ":", 0) {
            Some(i) => {
                proof {
                    lemma_first_match(host@, ":"@, 0);
                }
                let port_str = host.as_str().substring_char(i + 1, host_len);
                proof {
                    assert(host@.subrange(i + 1, host_len as int) =~= host@.skip(i + 1));
                }
                match parse_u16(port_str) {
                    Some(p) => {
                        let a = host.as_str().substring_char(0, i).to_owned();
                        proof {
                            assert(host@.subrange(0, i as int) =~= host@.take(i as int));
                        }
                        (a, p)
                    },
                    None => {
                        return Err(Error::BadRequest);
                    },
                }
            },
            None => (host.clone(), DEFAULT_HTTP_PORT),
        };
        let mut head = String::new();
        head.append(self.method.as_str());
        head.append(" ");
        head.append(self.path.as_str());
        head.append(" HTTP/1.1\r\n");
        head.append(self.headers.render_lines().as_str());
        head.append("\r\n");
        proof {
            assert(Seq::<char>::empty() + method_token(self@.method) =~= method_token(
                self@.method,
            ));
            assert(head@ =~= spec_request_head(self@.method, self@.path, self@.headers));
        }
        let mut request = head.as_str().as_bytes_vec();
        let mut body = self.body;
        request.append(&mut body);
        Ok((addr, port, request))
    }

    pub fn method(&self) -> (r: Method)
        ensures
            r == self@.method,
    {
        self.method
    }

    pub fn path(&self) -> (r: &str)
        ensures
            r@ == self@.path,
    {
        self.path.as_str()
    }

    pub fn headers(&self) -> (r: &HeaderMap)
        ensures
            r@ == self@.headers,
    {
        &self.headers
    }

    pub fn body(&self) -> (r: &Vec<u8>)
        ensures
            r@ == self@.body,
    {
        &self.body
    }
}

/// The header-map invariant holds of every parsed request: at most one
/// value is retained per literal name.
pub proof fn lemma_request_parse_unique(b: Seq<u8>)
    ensures
        spec_request_parse(b) matches Some(v) ==> crate::header_map::keys_unique(v.headers),
{
    if spec_request_parse(b) is Some {
        let (h, _) = spec_frame(b).unwrap();
        let lines = spec_split(h, "\r\n"@);
        crate::header_map::lemma_add_header_lines_unique(
            Seq::<(Seq<char>, Seq<char>)>::empty(),
            lines.skip(1),
        );
    }
}

/// An outbound request round-trips onto the wire exactly: compiling a
/// freshly constructed request dials the named host on the default port
/// and sends the request line, the seeded `Host` and `Connection: close`
/// headers, a blank line, and nothing more. Holds for every host without
/// an explicit port, every method, and every path.
pub proof fn lemma_request_round_trip(host: Seq<char>, m: Method, path: Seq<char>)
    requires
        first_match(host, ":"@, 0) is None,
    ensures
        spec_request_compile(
            RequestView {
                method: m,
                path: path,
                headers: seq![("Host"@, host), ("Connection"@, "close"@)],
                body: Seq::empty(),
            },
        ) == Some(
            (
                host,
                80u16,
                encode_utf8(
                    method_token(m) + " "@ + path + " HTTP/1.1\r\n"@ + "Host"@ + ": "@ + host
                        + "\r\n"@ + "Connection"@ + ": "@ + "close"@ + "\r\n"@ + "\r\n"@,
                ),
            ),
        ),
{
    reveal_with_fuel(spec_header_lines, 4);
    let hm = seq![("Host"@, host), ("Connection"@, "close"@)];
    assert(hm[0].0 == "Host"@);
    assert(spec_get(hm, "Host"@) == Some(host));
    assert(hm.skip(1) =~= seq![("Connection"@, "close"@)]);
    assert(seq![("Connection"@, "close"@)].skip(1) =~= Seq::<(Seq<char>, Seq<char>)>::empty());
    assert(spec_request_head(m, path, hm) =~= method_token(m) + " "@ + path + " HTTP/1.1\r\n"@
        + "Host"@ + ": "@ + host + "\r\n"@ + "Connection"@ + ": "@ + "close"@ + "\r\n"@ + "\r\n"@);
    assert(encode_utf8(spec_request_head(m, path, hm)) + Seq::<u8>::empty() =~= encode_utf8(
        spec_request_head(m, path, hm),
    ));
}

} // verus!
