//! An outbound response as the application builds it, and its generation
//! for the wire: `Content-Length` is always computed from the body,
//! `Content-Type` defaults to `text/plain`, and the engine stamps its
//! `Server` identification.

pub mod header;

pub use header::Header;

use vstd::prelude::*;
use vstd::utf8::encode_utf8;

use crate::response::spec_generated_headers;
use crate::response::Status;
use crate::text::usize_to_string;
use header::spec_header_text;
use header::HeaderView;

verus! {

/// The shape of an outbound response.
pub struct ResponseView {
    pub header: HeaderView,
    pub body: Option<Seq<char>>,
}

/// An outbound response: its header block and an optional text body.
pub struct Response {
    header: Header,
    body: Option<String>,
}

impl View for Response {
    type V = ResponseView;

    closed spec fn view(&self) -> ResponseView {
        ResponseView {
            header: self.header@,
            body: match self.body {
                Some(ref b) => Some(b@),
                None => None,
            },
        }
    }
}

/// The byte length of an optional text body, as `Content-Length` counts it.
pub open spec fn spec_body_len(body: Option<Seq<char>>) -> nat {
    match body {
        Some(b) => (encode_utf8(b).len() as usize) as nat,
        None => 0,
    }
}

/// The wire text of a generated response: the same automatic header
/// derivations as byte-level response compilation, then the body text.
pub open spec fn spec_generate(v: ResponseView) -> Seq<char> {
    spec_header_text(
        HeaderView {
            status_code: v.header.status_code,
            reason_phrase: v.header.reason_phrase,
            headers: spec_generated_headers(v.header.headers, spec_body_len(v.body)),
        },
    ) + match v.body {
        Some(b) => b,
        None => Seq::empty(),
    }
}

impl Response {
    /// A response for an explicit code and phrase.
    pub fn new(status_code: usize, reason_phrase: String, body: Option<String>) -> (r: Response)
        ensures
            r@.header.status_code == status_code as int,
            r@.header.reason_phrase == reason_phrase@,
            r@.header.headers == Seq::<(Seq<char>, Seq<char>)>::empty(),
            r@.body == (match body {
                Some(ref b) => Some(b@),
                None => None::<Seq<char>>,
            }),
    {
        Response { header: Header::new(status_code, reason_phrase), body }
    }

    /// A response for a registry status, with its canonical phrase.
    pub fn new_status(status: Status, body: Option<String>) -> (r: Response)
        ensures
            r@.header.status_code == crate::response::status_code(status),
            r@.header.reason_phrase == crate::response::status_phrase(status),
            r@.header.headers == Seq::<(Seq<char>, Seq<char>)>::empty(),
            r@.body == (match body {
                Some(ref b) => Some(b@),
                None => None::<Seq<char>>,
            }),
    {
        Response { header: Header::new_status(status), body }
    }

    pub fn header(&self) -> (r: &Header)
        ensures
            r@ == self@.header,
    {
        &self.header
    }

    /// The header block, for the application to add its own headers to.
    pub fn header_mut(&mut self) -> (r: &mut Header)
        ensures
            (*r)@ == old(self)@.header,
            final(self)@.header == (*final(r))@,
            final(self)@.body == old(self)@.body,
    {
        &mut self.header
    }

    /// Renders the response for the wire, deriving the automatic headers:
    /// `Content-Length` is always overwritten with the body's exact byte
    /// length, `Content-Type` defaults to `text/plain` only if unset, and
    /// the `Server` identification is always stamped.
    pub fn generate(self) -> (r: String)
        ensures
            r@ == spec_generate(self@),
    {
        let mut this = self;
        let len: usize = match &this.body {
            Some(b) => b.as_str().len(),
            None => 0,
        };
        this.header.insert_header("Content-Length".to_owned(), usize_to_string(len));
        let has_type = match this.header.get_header("Content-Type") {
            Some(_) => true,
            None => false,
        };
        if !has_type {
            this.header.insert_header("Content-Type".to_owned(), "text/plain".to_owned());
        }
        this.header.insert_header("Server".to_owned(), "Hart/1.0.0".to_owned());
        let mut out = this.header.generate();
        match this.body {
            Some(b) => {
                out.append(b.as_str());
            },
            None => {
                proof {
                    assert(out@ + Seq::<char>::empty() =~= out@);
                }
            },
        }
        out
    }
}

} // verus!
