//! The request headers: those that a client attaches to a request.

use vstd::prelude::*;

use crate::error::Error;
use crate::header_map::parse_header_line;
use crate::header_map::spec_header_line;
use crate::text::str_eq;

verus! {

#[derive(Debug, PartialEq, Eq, Hash, Clone, Copy, Structural)]
pub enum RequestHeader {
    Accept,
    AcceptCharset,
    AcceptEncoding,
    AcceptLanguage,
    Authorization,
    Except,
    From,
    Host,
    IfMatch,
    IfModifiedSince,
    IfNoneMatch,
    IfRange,
    IfUnmodifiedSince,
    MaxForwards,
    ProxyAuthorization,
    Range,
    Referer,
    TE,
    UserAgent,
}

/// The exact wire name of the header.
pub open spec fn spec_name(h: RequestHeader) -> Seq<char> {
    match h {
        RequestHeader::Accept => "Accept"@,
        RequestHeader::AcceptCharset => "Accept-Charset"@,
        RequestHeader::AcceptEncoding => "Accept-Encoding"@,
        RequestHeader::AcceptLanguage => "Accept-Language"@,
        RequestHeader::Authorization => "Authorization"@,
        RequestHeader::Except => "Except"@,
        RequestHeader::From => "From"@,
        RequestHeader::Host => "Host"@,
        RequestHeader::IfMatch => "If-Match"@,
        RequestHeader::IfModifiedSince => "If-Modified-Since"@,
        RequestHeader::IfNoneMatch => "If-None-Match"@,
        RequestHeader::IfRange => "If-Range"@,
        RequestHeader::IfUnmodifiedSince => "If-Unmodified-Since"@,
        RequestHeader::MaxForwards => "Max-Forwards"@,
        RequestHeader::ProxyAuthorization => "Proxy-Authorization"@,
        RequestHeader::Range => "Range"@,
        RequestHeader::Referer => "Referer"@,
        RequestHeader::TE => "TE"@,
        RequestHeader::UserAgent => "User-Agent"@,
    }
}

/// The header a name denotes: an exact, case-sensitive match.
pub open spec fn spec_of_name(s: Seq<char>) -> Option<RequestHeader> {
    if s == "Accept"@ {
        Some(RequestHeader::Accept)
    } else if s == "Accept-Charset"@ {
        Some(RequestHeader::AcceptCharset)
    } else if s == "Accept-Encoding"@ {
        Some(RequestHeader::AcceptEncoding)
    } else if s == "Accept-Language"@ {
        Some(RequestHeader::AcceptLanguage)
    } else if s == "Authorization"@ {
        Some(RequestHeader::Authorization)
    } else if s == "Except"@ {
        Some(RequestHeader::Except)
    } else if s == "From"@ {
        Some(RequestHeader::From)
    } else if s == "Host"@ {
        Some(RequestHeader::Host)
    } else if s == "If-Match"@ {
        Some(RequestHeader::IfMatch)
    } else if s == "If-Modified-Since"@ {
        Some(RequestHeader::IfModifiedSince)
    } else if s == "If-None-Match"@ {
        Some(RequestHeader::IfNoneMatch)
    } else if s == "If-Range"@ {
        Some(RequestHeader::IfRange)
    } else if s == "If-Unmodified-Since"@ {
        Some(RequestHeader::IfUnmodifiedSince)
    } else if s == "Max-Forwards"@ {
        Some(RequestHeader::MaxForwards)
    } else if s == "Proxy-Authorization"@ {
        Some(RequestHeader::ProxyAuthorization)
    } else if s == "Range"@ {
        Some(RequestHeader::Range)
    } else if s == "Referer"@ {
        Some(RequestHeader::Referer)
    } else if s == "TE"@ {
        Some(RequestHeader::TE)
    } else if s == "User-Agent"@ {
        Some(RequestHeader::UserAgent)
    } else {
        None
    }
}

impl RequestHeader {
    /// Parses a `Name: value` line whose name is one of these headers;
    /// a line without `:` is a bad request, an unknown name an invalid
    /// header.
    pub fn parse(line: &str) -> (r: Result<(RequestHeader, String), Error>)
        ensures
            match r {
                Ok(t) => spec_header_line(line@) matches Some(p) && spec_of_name(p.0) == Some(t.0)
                    && t.1@ == p.1,
                Err(e) => (spec_header_line(line@) is None && e is BadRequest) || (
                spec_header_line(line@) matches Some(p) && spec_of_name(p.0) is None
                    && e is InvalidHeader),
            },
    {
        let (key, value) = match parse_header_line(line) {
            Some(pair) => pair,
            None => {
                return Err(Error::BadRequest);
            },
        };
        if str_eq(key.as_str(), "Accept") {
            Ok((RequestHeader::Accept, value))
        } else if str_eq(key.as_str(), "Accept-Charset") {
            Ok((RequestHeader::AcceptCharset, value))
        } else if str_eq(key.as_str(), "Accept-Encoding") {
            Ok((RequestHeader::AcceptEncoding, value))
        } else if str_eq(key.as_str(), "Accept-Language") {
            Ok((RequestHeader::AcceptLanguage, value))
        } else if str_eq(key.as_str(), "Authorization") {
            Ok((RequestHeader::Authorization, value))
        } else if str_eq(key.as_str(), "Except") {
            Ok((RequestHeader::Except, value))
        } else if str_eq(key.as_str(), "From") {
            Ok((RequestHeader::From, value))
        } else if str_eq(key.as_str(), "Host") {
            Ok((RequestHeader::Host, value))
        } else if str_eq(key.as_str(), "If-Match") {
            Ok((RequestHeader::IfMatch, value))
        } else if str_eq(key.as_str(), "If-Modified-Since") {
            Ok((RequestHeader::IfModifiedSince, value))
        } else if str_eq(key.as_str(), "If-None-Match") {
            Ok((RequestHeader::IfNoneMatch, value))
        } else if str_eq(key.as_str(), "If-Range") {
            Ok((RequestHeader::IfRange, value))
        } else if str_eq(key.as_str(), "If-Unmodified-Since") {
            Ok((RequestHeader::IfUnmodifiedSince, value))
        } else if str_eq(key.as_str(), "Max-Forwards") {
            Ok((RequestHeader::MaxForwards, value))
        } else if str_eq(key.as_str(), "Proxy-Authorization") {
            Ok((RequestHeader::ProxyAuthorization, value))
        } else if str_eq(key.as_str(), "Range") {
            Ok((RequestHeader::Range, value))
        } else if str_eq(key.as_str(), "Referer") {
            Ok((RequestHeader::Referer, value))
        } else if str_eq(key.as_str(), "TE") {
            Ok((RequestHeader::TE, value))
        } else if str_eq(key.as_str(), "User-Agent") {
            Ok((RequestHeader::UserAgent, value))
        } else {
            Err(Error::InvalidHeader)
        }
    }

    /// The wire name of this header.
    pub fn as_str(&self) -> (r: &'static str)
        ensures
            r@ == spec_name(*self),
    {
        match self {
            RequestHeader::Accept => "Accept",
            RequestHeader::AcceptCharset => "Accept-Charset",
            RequestHeader::AcceptEncoding => "Accept-Encoding",
            RequestHeader::AcceptLanguage => "Accept-Language",
            RequestHeader::Authorization => "Authorization",
            RequestHeader::Except => "Except",
            RequestHeader::From => "From",
            RequestHeader::Host => "Host",
            RequestHeader::IfMatch => "If-Match",
            RequestHeader::IfModifiedSince => "If-Modified-Since",
            RequestHeader::IfNoneMatch => "If-None-Match",
            RequestHeader::IfRange => "If-Range",
            RequestHeader::IfUnmodifiedSince => "If-Unmodified-Since",
            RequestHeader::MaxForwards => "Max-Forwards",
            RequestHeader::ProxyAuthorization => "Proxy-Authorization",
            RequestHeader::Range => "Range",
            RequestHeader::Referer => "Referer",
            RequestHeader::TE => "TE",
            RequestHeader::UserAgent => "User-Agent",
        }
    }
}

} // verus!
