//! The entity headers: those that describe the body of a message.

use vstd::prelude::*;

use crate::error::Error;
use crate::header_map::parse_header_line;
use crate::header_map::spec_header_line;
use crate::text::str_eq;

verus! {

#[derive(Debug, PartialEq, Eq, Hash, Clone, Copy, Structural)]
pub enum EntityHeader {
    Allow,
    ContentEncoding,
    ContentLanguage,
    ContentLength,
    ContentLocation,
    ContentMD5,
    ContentRange,
    ContentType,
    Expires,
    LastModified,
}

/// The exact wire name of the header.
pub open spec fn spec_name(h: EntityHeader) -> Seq<char> {
    match h {
        EntityHeader::Allow => "Allow"@,
        EntityHeader::ContentEncoding => "Content-Encoding"@,
        EntityHeader::ContentLanguage => "Content-Language"@,
        EntityHeader::ContentLength => "Content-Length"@,
        EntityHeader::ContentLocation => "Content-Location"@,
        EntityHeader::ContentMD5 => "Content-MD5"@,
        EntityHeader::ContentRange => "Content-Range"@,
        EntityHeader::ContentType => "Content-Type"@,
        EntityHeader::Expires => "Expires"@,
        EntityHeader::LastModified => "Last-Modified"@,
    }
}

/// The header a name denotes: an exact, case-sensitive match.
pub open spec fn spec_of_name(s: Seq<char>) -> Option<EntityHeader> {
    if s == "Allow"@ {
        Some(EntityHeader::Allow)
    } else if s == "Content-Encoding"@ {
        Some(EntityHeader::ContentEncoding)
    } else if s == "Content-Language"@ {
        Some(EntityHeader::ContentLanguage)
    } else if s == "Content-Length"@ {
        Some(EntityHeader::ContentLength)
    } else if s == "Content-Location"@ {
        Some(EntityHeader::ContentLocation)
    } else if s == "Content-MD5"@ {
        Some(EntityHeader::ContentMD5)
    } else if s == "Content-Range"@ {
        Some(EntityHeader::ContentRange)
    } else if s == "Content-Type"@ {
        Some(EntityHeader::ContentType)
    } else if s == "Expires"@ {
        Some(EntityHeader::Expires)
    } else if s == "Last-Modified"@ {
        Some(EntityHeader::LastModified)
    } else {
        None
    }
}

impl EntityHeader {
    /// Parses a `Name: value` line whose name is one of these headers;
    /// a line without `:` is a bad request, an unknown name an invalid
    /// header.
    pub fn parse(line: &str) -> (r: Result<(EntityHeader, String), Error>)
        ensures
            match r {
                Ok(t) => spec_header_line(line@) matches Some(p) && spec_of_name(p.0) == Some(t.0)
                    && t.1@ == p.1,
                Err(e) => (spec_header_line(line@) is None && e is BadRequest) || (
                spec_header_line(line@) matches Some(p) && spec_of_name(p.0) is None
                    && e is InvalidHeader),
            },
    {
        let (key, value) = match parse_header_line(line) {
            Some(pair) => pair,
            None => {
                return Err(Error::BadRequest);
            },
        };
        if str_eq(key.as_str(), "Allow") {
            Ok((EntityHeader::Allow, value))
        } else if str_eq(key.as_str(), "Content-Encoding") {
            Ok((EntityHeader::ContentEncoding, value))
        } else if str_eq(key.as_str(), "Content-Language") {
            Ok((EntityHeader::ContentLanguage, value))
        } else if str_eq(key.as_str(), "Content-Length") {
            Ok((EntityHeader::ContentLength, value))
        } else if str_eq(key.as_str(), "Content-Location") {
            Ok((EntityHeader::ContentLocation, value))
        } else if str_eq(key.as_str(), "Content-MD5") {
            Ok((EntityHeader::ContentMD5, value))
        } else if str_eq(key.as_str(), "Content-Range") {
            Ok((EntityHeader::ContentRange, value))
        } else if str_eq(key.as_str(), "Content-Type") {
            Ok((EntityHeader::ContentType, value))
        } else if str_eq(key.as_str(), "Expires") {
            Ok((EntityHeader::Expires, value))
        } else if str_eq(key.as_str(), "Last-Modified") {
            Ok((EntityHeader::LastModified, value))
        } else {
            Err(Error::InvalidHeader)
        }
    }

    /// The wire name of this header.
    pub fn as_str(&self) -> (r: &'static str)
        ensures
            r@ == spec_name(*self),
    {
        match self {
            EntityHeader::Allow => "Allow",
            EntityHeader::ContentEncoding => "Content-Encoding",
            EntityHeader::ContentLanguage => "Content-Language",
            EntityHeader::ContentLength => "Content-Length",
            EntityHeader::ContentLocation => "Content-Location",
            EntityHeader::ContentMD5 => "Content-MD5",
            EntityHeader::ContentRange => "Content-Range",
            EntityHeader::ContentType => "Content-Type",
            EntityHeader::Expires => "Expires",
            EntityHeader::LastModified => "Last-Modified",
        }
    }
}

} // verus!
