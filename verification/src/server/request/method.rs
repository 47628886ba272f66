//! The HTTP method as the server-side parser knows it, with a diagnostic
//! error that carries the offending token.

use vstd::prelude::*;

use crate::text::str_eq;

verus! {

#[derive(Clone, Copy, Debug, PartialEq, Eq, Structural)]
pub enum Method {
    Options,
    Get,
    Head,
    Post,
    Put,
    Delete,
    Trace,
    Connect,
}

/// The exact wire token of a method.
pub open spec fn method_token(m: Method) -> Seq<char> {
    match m {
        Method::Options => "OPTIONS"@,
        Method::Get => "GET"@,
        Method::Head => "HEAD"@,
        Method::Post => "POST"@,
        Method::Put => "PUT"@,
        Method::Delete => "DELETE"@,
        Method::Trace => "TRACE"@,
        Method::Connect => "CONNECT"@,
    }
}

/// The method a token denotes: an exact, case-sensitive match.
pub open spec fn spec_method_parse(s: Seq<char>) -> Option<Method> {
    if s == "OPTIONS"@ {
        Some(Method::Options)
    } else if s == "GET"@ {
        Some(Method::Get)
    } else if s == "HEAD"@ {
        Some(Method::Head)
    } else if s == "POST"@ {
        Some(Method::Post)
    } else if s == "PUT"@ {
        Some(Method::Put)
    } else if s == "DELETE"@ {
        Some(Method::Delete)
    } else if s == "TRACE"@ {
        Some(Method::Trace)
    } else if s == "CONNECT"@ {
        Some(Method::Connect)
    } else {
        None
    }
}

/// A token that names no method, kept for diagnostics.
#[derive(Debug)]
pub struct InvalidMethodError(String);

impl View for InvalidMethodError {
    type V = Seq<char>;

    closed spec fn view(&self) -> Seq<char> {
        self.0@
    }
}

impl InvalidMethodError {
    /// A line of diagnostics text naming the rejected token.
    pub fn message(&self) -> (r: String)
        ensures
            r@ == "Invalid method ("@ + self@ + ")"@,
    {
        let mut s = String::new();
        s.append("Invalid method (");
        s.append(self.0.as_str());
        s.append(")");
        proof {
            assert(s@ =~= "Invalid method ("@ + self@ + ")"@);
        }
        s
    }
}

impl Method {
    /// Parses a method token; any other token is rejected and reported.
    pub fn parse(string: &str) -> (r: Result<Method, InvalidMethodError>)
        ensures
            match r {
                Ok(m) => spec_method_parse(string@) == Some(m),
                Err(e) => spec_method_parse(string@) is None && e@ == string@,
            },
    {
        if str_eq(string, "OPTIONS") {
            Ok(Method::Options)
        } else if str_eq(string, "GET") {
            Ok(Method::Get)
        } else if str_eq(string, "HEAD") {
            Ok(Method::Head)
        } else if str_eq(string, "POST") {
            Ok(Method::Post)
        } else if str_eq(string, "PUT") {
            Ok(Method::Put)
        } else if str_eq(string, "DELETE") {
            Ok(Method::Delete)
        } else if str_eq(string, "TRACE") {
            Ok(Method::Trace)
        } else if str_eq(string, "CONNECT") {
            Ok(Method::Connect)
        } else {
            Err(InvalidMethodError(string.to_owned()))
        }
    }

    /// The wire token of this method.
    pub fn as_str(&self) -> (r: &'static str)
        ensures
            r@ == method_token(*self),
    {
        match self {
            Method::Options => "OPTIONS",
            Method::Get => "GET",
            Method::Head => "HEAD",
            Method::Post => "POST",
            Method::Put => "PUT",
            Method::Delete => "DELETE",
            Method::Trace => "TRACE",
            Method::Connect => "CONNECT",
        }
    }
}

/// Every method round-trips: parsing its own token gives it back.
pub proof fn lemma_method_round_trip(m: Method)
    ensures
        spec_method_parse(method_token(m)) == Some(m),
{
    reveal_strlit("OPTIONS");
    reveal_strlit("GET");
    reveal_strlit("HEAD");
    reveal_strlit("POST");
    reveal_strlit("PUT");
    reveal_strlit("DELETE");
    reveal_strlit("TRACE");
    reveal_strlit("CONNECT");
    assert("OPTIONS"@.len() == 7 && "OPTIONS"@[0] == 'O');
    assert("GET"@.len() == 3 && "GET"@[0] == 'G');
    assert("HEAD"@.len() == 4 && "HEAD"@[0] == 'H');
    assert("POST"@.len() == 4 && "POST"@[0] == 'P');
    assert("PUT"@.len() == 3 && "PUT"@[0] == 'P');
    assert("DELETE"@.len() == 6 && "DELETE"@[0] == 'D');
    assert("TRACE"@.len() == 5 && "TRACE"@[0] == 'T');
    assert("CONNECT"@.len() == 7 && "CONNECT"@[0] == 'C');
    match m {
        Method::Options => {
            assert(spec_method_parse("OPTIONS"@) == Some(Method::Options));
        },
        Method::Get => {
            assert(spec_method_parse("GET"@) == Some(Method::Get));
        },
        Method::Head => {
            assert(spec_method_parse("HEAD"@) == Some(Method::Head));
        },
        Method::Post => {
            assert(spec_method_parse("POST"@) == Some(Method::Post));
        },
        Method::Put => {
            assert(spec_method_parse("PUT"@) == Some(Method::Put));
        },
        Method::Delete => {
            assert(spec_method_parse("DELETE"@) == Some(Method::Delete));
        },
        Method::Trace => {
            assert(spec_method_parse("TRACE"@) == Some(Method::Trace));
        },
        Method::Connect => {
            assert(spec_method_parse("CONNECT"@) == Some(Method::Connect));
        },
    }
}

} // verus!
