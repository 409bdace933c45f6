//! Declarations of the `http` items that the library builds on, with the
//! contracts that the library relies on.

use http::status::InvalidStatusCode;
use http::{Method, Response, StatusCode};
use vstd::prelude::*;

verus! {

#[verifier::external_type_specification]
#[verifier::external_body]
pub struct ExStatusCode(StatusCode);

#[verifier::external_type_specification]
#[verifier::external_body]
pub struct ExInvalidStatusCode(InvalidStatusCode);

/// The status code that `StatusCode::from_u16` makes of a number in `100..=999`.
pub uninterp spec fn status_for(code: u16) -> StatusCode;

/// Relies on `http::StatusCode::from_u16`: it accepts exactly the numbers in
/// `100..=999`, and the status it returns depends on the number alone.
pub assume_specification[ StatusCode::from_u16 ](src: u16) -> (r: Result<StatusCode, InvalidStatusCode>)
    ensures
        r is Ok <==> 100 <= src <= 999,
        r matches Ok(s) ==> s == status_for(src),
;


#[verifier::external_type_specification]
#[verifier::external_body]
pub struct ExMethod(Method);

#[verifier::external_type_specification]
#[verifier::external_body]
#[verifier::reject_recursive_types(T)]
pub struct ExResponse<T>(Response<T>);

/// The text of an HTTP method token.
pub uninterp spec fn method_text(m: Method) -> Seq<char>;

/// A character that may stand in an HTTP method token: a visible ASCII
/// character.
pub open spec fn is_token_char(c: char) -> bool {
    '!' <= c && c <= '~'
}

/// Relies on `http::Method::as_str`: the text depends on the method alone,
/// and is made of token characters (standard methods are upper-case words,
/// extension methods are checked against the token table when built).
pub assume_specification[ Method::as_str ](m: &Method) -> (r: &str)
    ensures
        r@ == method_text(*m),
        forall|i: int| 0 <= i < r@.len() ==> is_token_char(#[trigger] r@[i]),
;

/// The upper-case form of an ASCII character; any other character is kept.
pub open spec fn ascii_upper_char(c: char) -> char {
    if 'a' <= c && c <= 'z' {
        ((c as u32) - 32) as char
    } else {
        c
    }
}

/// `s` with every ASCII lower-case letter made upper-case.
pub open spec fn ascii_upper(s: Seq<char>) -> Seq<char> {
    s.map_values(|c: char| ascii_upper_char(c))
}

/// Relies on `str::to_ascii_uppercase`: letters `a` to `z` become `A` to `Z`,
/// every other character is kept.
pub assume_specification[ str::to_ascii_uppercase ](s: &str) -> (r: String)
    ensures
        r@ == ascii_upper(s@),
;

/// A character that may stand in an HTTP header value.
pub open spec fn is_header_char(c: char) -> bool {
    c == '\t' || (' ' <= c && c != '\x7f')
}

/// The view of an optional string.
pub open spec fn opt_text(o: Option<String>) -> Option<Seq<char>> {
    match o {
        Some(s) => Some(s@),
        None => None,
    }
}

/// The bodiless response that `http::Response::builder` makes of a status
/// and an optional `Allow` header value.
pub uninterp spec fn response_for(status: u16, allow: Option<Seq<char>>) -> Response<()>;

/// Relies on `http::response::Builder`: with a status in `100..=999` and an
/// `Allow` value made of header characters, `body(())` returns `Ok`; the
/// response depends on the status and the header value alone.
#[verifier::external_body]
pub(crate) fn build_response(status: u16, allow: Option<String>) -> (r: Response<()>)
    requires
        100 <= status <= 999,
        allow matches Some(a) ==> forall|i: int| 0 <= i < a@.len() ==> is_header_char(#[trigger] a@[i]),
    ensures
        r == response_for(status, opt_text(allow)),
{
    let mut builder = Response::builder().status(status);
    if let Some(a) = allow {
        builder = builder.header(http::header::ALLOW, a);
    }
    builder.body(()).expect("could not build HTTP response for error")
}

} // verus!
