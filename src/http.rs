//! Outbound HTTP requests made on a guest's behalf: how they fail.
use crate::text::str_eq;
use vstd::prelude::*;
use vstd::string::*;

verus! {

/// The HTTP verbs a guest can receive and send.
#[derive(Clone, Copy, Debug, PartialEq, Eq, Structural)]
pub enum Method {
    Get,
    Post,
    Put,
    Delete,
    Patch,
}

impl Method {
    /// The verb of a request line, if it is one of the supported verbs.
    pub fn parse(text: &str) -> (r: Result<Method, String>)
        ensures
            text@ == "GET"@ ==> r == Ok::<Method, String>(Method::Get),
            text@ == "POST"@ ==> r == Ok::<Method, String>(Method::Post),
            text@ == "PUT"@ ==> r == Ok::<Method, String>(Method::Put),
            text@ == "DELETE"@ ==> r == Ok::<Method, String>(Method::Delete),
            text@ == "PATCH"@ ==> r == Ok::<Method, String>(Method::Patch),
            r is Ok ==> text@ == r->Ok_0.as_str_spec(),
            r matches Err(m) ==> m@ == "carol doesn't support \u{2018}"@ + text@ + "\u{2019} as a http method"@,
    {
        proof {
            reveal_strlit("GET");
            reveal_strlit("POST");
            reveal_strlit("PUT");
            reveal_strlit("DELETE");
            reveal_strlit("PATCH");
            assert("POST"@.len() != "GET"@.len());
            assert("PUT"@[0] != "GET"@[0]);
            assert("DELETE"@.len() != "GET"@.len() && "DELETE"@.len() != "POST"@.len() && "DELETE"@.len() != "PUT"@.len());
            assert("PATCH"@.len() != "GET"@.len() && "PATCH"@.len() != "POST"@.len());
            assert("PATCH"@.len() != "PUT"@.len() && "PATCH"@.len() != "DELETE"@.len());
            assert("PUT"@.len() != "POST"@.len());
        }
        if str_eq(text, "GET") {
            Ok(Method::Get)
        } else if str_eq(text, "POST") {
            Ok(Method::Post)
        } else if str_eq(text, "PUT") {
            Ok(Method::Put)
        } else if str_eq(text, "DELETE") {
            Ok(Method::Delete)
        } else if str_eq(text, "PATCH") {
            Ok(Method::Patch)
        } else {
            let mut m = String::from_str("carol doesn't support \u{2018}");
            m.append(text);
            m.append("\u{2019} as a http method");
            Err(m)
        }
    }

    pub open spec fn as_str_spec(&self) -> Seq<char> {
        match self {
            Method::Get => "GET"@,
            Method::Post => "POST"@,
            Method::Put => "PUT"@,
            Method::Delete => "DELETE"@,
            Method::Patch => "PATCH"@,
        }
    }

    /// The verb as text.
    pub fn as_str(&self) -> (r: &'static str)
        ensures
            r@ == self.as_str_spec(),
    {
        match self {
            Method::Get => "GET",
            Method::Post => "POST",
            Method::Put => "PUT",
            Method::Delete => "DELETE",
            Method::Patch => "PATCH",
        }
    }
}

/// A failed outbound HTTP request, as the guest sees it.
#[derive(Clone, Debug, PartialEq, Eq, Hash, PartialOrd, Ord)]
pub enum Error {
    InvalidUrl(String),
    InvalidHeader(String),
    Timeout,
    Connection(String),
    Unexpected(String),
}

/// What went wrong while building an outbound request.
#[derive(Clone, Copy, Debug, PartialEq, Eq, Structural)]
pub enum RequestFault {
    Uri,
    Header,
    Other,
}

impl Error {
    /// The error for a request that could not be built.
    pub fn from_request_fault(fault: RequestFault, message: String) -> (r: Error)
        ensures
            r == match fault {
                RequestFault::Uri => Error::InvalidUrl(message),
                RequestFault::Header => Error::InvalidHeader(message),
                RequestFault::Other => Error::Unexpected(message),
            },
    {
        match fault {
            RequestFault::Uri => Error::InvalidUrl(message),
            RequestFault::Header => Error::InvalidHeader(message),
            RequestFault::Other => Error::Unexpected(message),
        }
    }

    /// The error for a request that failed in transport.
    pub fn from_transport(is_timeout: bool, is_connect: bool, message: String) -> (r: Error)
        ensures
            r == if is_timeout {
                Error::Timeout
            } else if is_connect {
                Error::Connection(message)
            } else {
                Error::Unexpected(message)
            },
    {
        if is_timeout {
            Error::Timeout
        } else if is_connect {
            Error::Connection(message)
        } else {
            Error::Unexpected(message)
        }
    }

    /// The error as text.
    pub fn to_string(&self) -> (r: String)
        ensures
            r@ == match self {
                Error::InvalidUrl(e) => "invalid url: "@ + e@,
                Error::InvalidHeader(e) => "invalid header: "@ + e@,
                Error::Timeout => "HTTP request timed out"@,
                Error::Connection(e) => "HTTP connection failed: "@ + e@,
                Error::Unexpected(e) => "unexpected HTTP error; "@ + e@,
            },
    {
        match self {
            Error::InvalidUrl(e) => String::from_str("invalid url: ").concat(e.as_str()),
            Error::InvalidHeader(e) => String::from_str("invalid header: ").concat(e.as_str()),
            Error::Timeout => String::from_str("HTTP request timed out"),
            Error::Connection(e) => String::from_str("HTTP connection failed: ").concat(e.as_str()),
            Error::Unexpected(e) => String::from_str("unexpected HTTP error; ").concat(e.as_str()),
        }
    }
}

} // verus!
