//! The closed set of built-in extraction failures and their HTTP statuses.

use crate::http_ext::status_for;
use http::StatusCode;
use vstd::prelude::*;

verus! {

/// The different kinds of errors that can occur while extracting a request.
#[derive(Debug, Clone, Copy, PartialEq, Eq, Structural)]
pub enum BuildInErrorKind {
    /// Failed to parse query parameters (400 Bad Request).
    QueryParam,
    /// Failed to deserialize the request body (400 Bad Request).
    Body,
    /// Failed to parse a path segment (404 Not Found).
    PathSegment,
    /// No route matched the request URL (404 Not Found).
    NoMatchingRoute,
    /// The endpoint does not support the request's method, but does support
    /// another one (405 Method Not Allowed).
    WrongMethod,
}

impl BuildInErrorKind {
    /// The numeric HTTP status that most closely describes this kind.
    pub open spec fn status(self) -> u16 {
        match self {
            BuildInErrorKind::QueryParam | BuildInErrorKind::Body => 400,
            BuildInErrorKind::PathSegment | BuildInErrorKind::NoMatchingRoute => 404,
            BuildInErrorKind::WrongMethod => 405,
        }
    }

    /// The fixed human-readable phrase of this kind.
    pub open spec fn phrase(self) -> Seq<char> {
        match self {
            BuildInErrorKind::PathSegment => "failed to parse data in path segment"@,
            BuildInErrorKind::QueryParam => "failed to parse query parameters"@,
            BuildInErrorKind::Body => "failed to parse request body"@,
            BuildInErrorKind::NoMatchingRoute => "requested route does not exist"@,
            BuildInErrorKind::WrongMethod => "method not supported on this endpoint"@,
        }
    }

    /// Returns the numeric HTTP status that most closely describes this kind.
    pub fn status_code(&self) -> (r: u16)
        ensures
            r == self.status(),
            100 <= r <= 999,
    {
        match self {
            BuildInErrorKind::QueryParam | BuildInErrorKind::Body => 400,
            BuildInErrorKind::PathSegment | BuildInErrorKind::NoMatchingRoute => 404,
            BuildInErrorKind::WrongMethod => 405,
        }
    }

    /// Returns the HTTP status code that most closely describes this kind.
    pub fn http_status(&self) -> (r: StatusCode)
        ensures
            r == status_for(self.status()),
    {
        StatusCode::from_u16(self.status_code()).unwrap()
    }

    /// Returns the fixed human-readable phrase of this kind.
    pub fn display_text(&self) -> (r: &'static str)
        ensures
            r@ == self.phrase(),
    {
        let r = match self {
            BuildInErrorKind::PathSegment => "failed to parse data in path segment",
            BuildInErrorKind::QueryParam => "failed to parse query parameters",
            BuildInErrorKind::Body => "failed to parse request body",
            BuildInErrorKind::NoMatchingRoute => "requested route does not exist",
            BuildInErrorKind::WrongMethod => "method not supported on this endpoint",
        };
        r
    }
}

/// Query-parameter and body failures are reported as 400 Bad Request,
/// path-segment and missing-route failures as 404 Not Found, and a method
/// mismatch as 405 Method Not Allowed.
pub proof fn lemma_status_classes(k: BuildInErrorKind)
    ensures
        (k == BuildInErrorKind::QueryParam || k == BuildInErrorKind::Body) ==> k.status() == 400,
        (k == BuildInErrorKind::PathSegment || k == BuildInErrorKind::NoMatchingRoute) ==> k.status()
            == 404,
        k == BuildInErrorKind::WrongMethod ==> k.status() == 405,
{
}

} // verus!
