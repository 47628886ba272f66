//! The header block of an outbound response: status line fields and the
//! header map, rendered to wire text.

use vstd::prelude::*;

use crate::header_map::spec_get;
use crate::header_map::spec_header_lines;
use crate::header_map::spec_insert;
use crate::header_map::HeaderMap;
use crate::response::Status;
use crate::text::spec_uint_string;
use crate::text::usize_to_string;

verus! {

/// The shape of a response header block.
pub struct HeaderView {
    pub status_code: int,
    pub reason_phrase: Seq<char>,
    pub headers: Seq<(Seq<char>, Seq<char>)>,
}

/// The header block of an outbound response.
pub struct Header {
    status_code: usize,
    reason_phrase: String,
    headers: HeaderMap,
}

impl View for Header {
    type V = HeaderView;

    closed spec fn view(&self) -> HeaderView {
        HeaderView {
            status_code: self.status_code as int,
            reason_phrase: self.reason_phrase@,
            headers: self.headers@,
        }
    }
}

/// The wire text of a response header block: status line, header lines,
/// and the blank line that ends the block.
pub open spec fn spec_header_text(v: HeaderView) -> Seq<char>
    recommends
        0 <= v.status_code,
{
    "HTTP/1.1 "@ + spec_uint_string(v.status_code as nat) + " "@ + v.reason_phrase + "\r\n"@
        + spec_header_lines(v.headers) + "\r\n"@
}

impl Header {
    /// A header block for an explicit code and phrase, with no headers yet.
    pub fn new(status_code: usize, reason_phrase: String) -> (r: Header)
        ensures
            r@.status_code == status_code as int,
            r@.reason_phrase == reason_phrase@,
            r@.headers == Seq::<(Seq<char>, Seq<char>)>::empty(),
    {
        let r = Header { status_code, reason_phrase, headers: HeaderMap::new() };
        r
    }

    /// A header block for a registry status: its code and canonical phrase.
    pub fn new_status(status: Status) -> (r: Header)
        ensures
            r@.status_code == crate::response::status_code(status),
            r@.reason_phrase == crate::response::status_phrase(status),
            r@.headers == Seq::<(Seq<char>, Seq<char>)>::empty(),
    {
        Header {
            status_code: status.code(),
            reason_phrase: status.reason_phrase().to_owned(),
            headers: HeaderMap::new(),
        }
    }

    /// Stores `value` under `key`; an earlier value is replaced.
    pub fn insert_header(&mut self, key: String, value: String)
        ensures
            final(self)@.status_code == old(self)@.status_code,
            final(self)@.reason_phrase == old(self)@.reason_phrase,
            final(self)@.headers == spec_insert(old(self)@.headers, key@, value@),
    {
        self.headers.insert(key, value);
    }

    /// The value stored under `key`, if any.
    pub fn get_header(&self, key: &str) -> (r: Option<&str>)
        ensures
            match r {
                Some(v) => spec_get(self@.headers, key@) == Some(v@),
                None => spec_get(self@.headers, key@) is None,
            },
    {
        match self.headers.get(key) {
            Some(v) => Some(v.as_str()),
            None => None,
        }
    }

    /// Renders the block for the wire: status line, header lines, blank
    /// line.
    pub fn generate(self) -> (r: String)
        ensures
            r@ == spec_header_text(self@),
    {
        let mut s = String::new();
        s.append("HTTP/1.1 ");
        s.append(usize_to_string(self.status_code).as_str());
        s.append(" ");
        s.append(self.reason_phrase.as_str());
        s.append("\r\n");
        s.append(self.headers.render_lines().as_str());
        s.append("\r\n");
        proof {
            assert(s@ =~= spec_header_text(self@));
        }
        s
    }
}

} // verus!
