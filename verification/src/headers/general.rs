//! The general headers: those that apply to a message of either side.

use vstd::prelude::*;

use crate::error::Error;
use crate::header_map::parse_header_line;
use crate::header_map::spec_header_line;
use crate::text::str_eq;

verus! {

#[derive(Debug, PartialEq, Eq, Hash, Clone, Copy, Structural)]
pub enum GeneralHeader {
    CacheControl,
    Connection,
    Date,
    Pragma,
    Trailer,
    TransferEncoding,
    Upgrade,
    Via,
    Warning,
}

/// The exact wire name of the header.
pub open spec fn spec_name(h: GeneralHeader) -> Seq<char> {
    match h {
        GeneralHeader::CacheControl => "Cache-Control"@,
        GeneralHeader::Connection => "Connection"@,
        GeneralHeader::Date => "Date"@,
        GeneralHeader::Pragma => "Pragma"@,
        GeneralHeader::Trailer => "Trailer"@,
        GeneralHeader::TransferEncoding => "Transfer-Encoding"@,
        GeneralHeader::Upgrade => "Upgrade"@,
        GeneralHeader::Via => "Via"@,
        GeneralHeader::Warning => "Warning"@,
    }
}

/// The header a name denotes: an exact, case-sensitive match.
pub open spec fn spec_of_name(s: Seq<char>) -> Option<GeneralHeader> {
    if s == "Cache-Control"@ {
        Some(GeneralHeader::CacheControl)
    } else if s == "Connection"@ {
        Some(GeneralHeader::Connection)
    } else if s == "Date"@ {
        Some(GeneralHeader::Date)
    } else if s == "Pragma"@ {
        Some(GeneralHeader::Pragma)
    } else if s == "Trailer"@ {
        Some(GeneralHeader::Trailer)
    } else if s == "Transfer-Encoding"@ {
        Some(GeneralHeader::TransferEncoding)
    } else if s == "Upgrade"@ {
        Some(GeneralHeader::Upgrade)
    } else if s == "Via"@ {
        Some(GeneralHeader::Via)
    } else if s == "Warning"@ {
        Some(GeneralHeader::Warning)
    } else {
        None
    }
}

impl GeneralHeader {
    /// Parses a `Name: value` line whose name is one of these headers;
    /// a line without `:` is a bad request, an unknown name an invalid
    /// header.
    pub fn parse(line: &str) -> (r: Result<(GeneralHeader, String), Error>)
        ensures
            match r {
                Ok(t) => spec_header_line(line@) matches Some(p) && spec_of_name(p.0) == Some(t.0)
                    && t.1@ == p.1,
                Err(e) => (spec_header_line(line@) is None && e is BadRequest) || (
                spec_header_line(line@) matches Some(p) && spec_of_name(p.0) is None
                    && e is InvalidHeader),
            },
    {
        let (key, value) = match parse_header_line(line) {
            Some(pair) => pair,
            None => {
                return Err(Error::BadRequest);
            },
        };
        if str_eq(key.as_str(), "Cache-Control") {
            Ok((GeneralHeader::CacheControl, value))
        } else if str_eq(key.as_str(), "Connection") {
            Ok((GeneralHeader::Connection, value))
        } else if str_eq(key.as_str(), "Date") {
            Ok((GeneralHeader::Date, value))
        } else if str_eq(key.as_str(), "Pragma") {
            Ok((GeneralHeader::Pragma, value))
        } else if str_eq(key.as_str(), "Trailer") {
            Ok((GeneralHeader::Trailer, value))
        } else if str_eq(key.as_str(), "Transfer-Encoding") {
            Ok((GeneralHeader::TransferEncoding, value))
        } else if str_eq(key.as_str(), "Upgrade") {
            Ok((GeneralHeader::Upgrade, value))
        } else if str_eq(key.as_str(), "Via") {
            Ok((GeneralHeader::Via, value))
        } else if str_eq(key.as_str(), "Warning") {
            Ok((GeneralHeader::Warning, value))
        } else {
            Err(Error::InvalidHeader)
        }
    }

    /// The wire name of this header.
    pub fn as_str(&self) -> (r: &'static str)
        ensures
            r@ == spec_name(*self),
    {
        match self {
            GeneralHeader::CacheControl => "Cache-Control",
            GeneralHeader::Connection => "Connection",
            GeneralHeader::Date => "Date",
            GeneralHeader::Pragma => "Pragma",
            GeneralHeader::Trailer => "Trailer",
            GeneralHeader::TransferEncoding => "Transfer-Encoding",
            GeneralHeader::Upgrade => "Upgrade",
            GeneralHeader::Via => "Via",
            GeneralHeader::Warning => "Warning",
        }
    }
}

} // verus!
