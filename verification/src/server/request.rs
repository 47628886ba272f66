//! An inbound request as the server hands it to the application: the
//! parsed header block and the body text.

pub mod header;
pub mod method;

pub use header::Header;
pub use header::RequestParseError;
pub use method::InvalidMethodError;
pub use method::Method;

use vstd::prelude::*;

use header::HeaderView;

verus! {

/// The shape of an inbound request.
pub struct RequestView {
    pub header: HeaderView,
    pub body: Seq<char>,
}

/// An inbound request: its header block and its body.
pub struct Request {
    header: Header,
    body: String,
}

impl View for Request {
    type V = RequestView;

    closed spec fn view(&self) -> RequestView {
        RequestView { header: self.header@, body: self.body@ }
    }
}

impl Request {
    pub fn new(header: Header, body: String) -> (r: Request)
        ensures
            r@.header == header@,
            r@.body == body@,
    {
        Request { header, body }
    }

    pub fn header(&self) -> (r: &Header)
        ensures
            r@ == self@.header,
    {
        &self.header
    }

    pub fn body(&self) -> (r: &str)
        ensures
            r@ == self@.body,
    {
        self.body.as_str()
    }
}

} // verus!
