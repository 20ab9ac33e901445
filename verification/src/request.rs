//! The plain types of a request: its method, what can be wrong with an
//! argument, and the finished request that a transport sends.

use crate::headers::header_entries;
use reqwest::header::HeaderMap;
use vstd::prelude::*;

verus! {

/// The HTTP method of a request.
#[derive(Clone, Copy, Debug, PartialEq, Eq, Structural)]
pub enum Method {
    GET,
    HEAD,
    POST,
    PATCH,
    PUT,
    DELETE,
}

impl Method {
    /// The methods that only read: `GET` and `HEAD`.
    pub open spec fn reads(self) -> bool {
        self == Method::GET || self == Method::HEAD
    }

    /// Whether the method only reads.
    pub fn is_read_only(&self) -> (read_only: bool)
        ensures
            read_only == self.reads(),
    {
        match self {
            Method::GET => true,
            Method::HEAD => true,
            _ => false,
        }
    }
}

/// An argument that a modifier refuses.
#[derive(Clone, Copy, Debug, PartialEq, Eq, Structural)]
pub enum RequestError {
    /// A number outside the range that the modifier takes.
    InvalidArgument,
    /// A text that is no header name.
    InvalidHeaderName,
    /// A text that is no header value.
    InvalidHeaderValue,
}

impl RequestError {
    /// What the error says, in words.
    pub open spec fn text(self) -> Seq<char> {
        match self {
            RequestError::InvalidArgument => "invalid argument"@,
            RequestError::InvalidHeaderName => "invalid header name"@,
            RequestError::InvalidHeaderValue => "invalid header value"@,
        }
    }

    /// What the error says, in words.
    pub fn message(&self) -> (message: &'static str)
        ensures
            message@ == self.text(),
    {
        match self {
            RequestError::InvalidArgument => "invalid argument",
            RequestError::InvalidHeaderName => "invalid header name",
            RequestError::InvalidHeaderValue => "invalid header value",
        }
    }
}

/// Which profile header carries the schema of a stored-procedure call.
#[derive(Clone, Copy, Debug, PartialEq, Eq, Structural)]
pub enum ProfilePolicy {
    /// The header follows the method, as for a table.
    ByMethod,
    /// A stored-procedure call names its schema in `Accept-Profile`,
    /// whatever its method.
    AcceptForRpc,
}

/// A finished request, as a transport sends it.
pub struct Request {
    pub method: Method,
    pub url: String,
    pub headers: HeaderMap,
    pub queries: Vec<(String, String)>,
    pub body: Option<String>,
}

/// The mathematical value of a `Request`.
pub struct RequestView {
    pub method: Method,
    pub url: Seq<char>,
    pub headers: Map<Seq<char>, Seq<char>>,
    pub queries: Seq<(Seq<char>, Seq<char>)>,
    pub body: Option<Seq<char>>,
}

impl View for Request {
    type V = RequestView;

    open spec fn view(&self) -> RequestView {
        RequestView {
            method: self.method,
            url: self.url@,
            headers: header_entries(self.headers),
            queries: self.queries.deep_view(),
            body: self.body.deep_view(),
        }
    }
}

} // verus!
