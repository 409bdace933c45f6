//! The concrete built-in error and the response that reports it.

use crate::http_ext::{
    ascii_upper, build_response, is_header_char, is_token_char, method_text, opt_text, response_for,
    status_for,
};
use crate::kind::BuildInErrorKind;
use crate::source::SourceError;
use http::{Method, Response, StatusCode};
use vstd::prelude::*;
use vstd::string::StringExecFns;

verus! {

/// The error raised by the library's own extraction logic.
#[derive(Debug)]
pub struct BuildInError {
    kind: BuildInErrorKind,
    /// In case of a `WrongMethod` error, the allowed HTTP methods.
    allowed_methods: Vec<Method>,
    source: Option<SourceError>,
}

/// What a `BuildInError` holds.
pub ghost struct BuildInErrorModel {
    pub kind: BuildInErrorKind,
    pub allowed_methods: Seq<Method>,
    pub source: Option<SourceError>,
}

impl View for BuildInError {
    type V = BuildInErrorModel;

    closed spec fn view(&self) -> BuildInErrorModel {
        BuildInErrorModel {
            kind: self.kind,
            allowed_methods: self.allowed_methods@,
            source: self.source,
        }
    }
}

/// The value of the `Allow` header for the given methods: each method's
/// text in upper case, joined by `", "`, in the given order.
pub open spec fn allow_text(methods: Seq<Method>) -> Seq<char>
    decreases methods.len(),
{
    if methods.len() == 0 {
        Seq::empty()
    } else if methods.len() == 1 {
        ascii_upper(method_text(methods[0]))
    } else {
        allow_text(methods.drop_last()) + ", "@ + ascii_upper(method_text(methods.last()))
    }
}

/// The text of an error of kind `kind` with the optional cause `source`.
pub open spec fn error_text(kind: BuildInErrorKind, source: Option<SourceError>) -> Seq<char> {
    match source {
        None => kind.phrase(),
        Some(s) => kind.phrase() + ": "@ + s.message@,
    }
}

/// The `Allow` header value owed by an error with this model, if any.
pub open spec fn allow_header_of(m: BuildInErrorModel) -> Option<Seq<char>> {
    if m.kind == BuildInErrorKind::WrongMethod {
        Some(allow_text(m.allowed_methods))
    } else {
        None
    }
}

impl BuildInError {
    #[verifier::type_invariant]
    closed spec fn inv(&self) -> bool {
        self.allowed_methods@.len() > 0 ==> self.kind == BuildInErrorKind::WrongMethod
    }

    /// Creates an error that holds just the given kind.
    pub fn from_kind(kind: BuildInErrorKind) -> (r: Self)
        ensures
            r@ == (BuildInErrorModel { kind, allowed_methods: Seq::empty(), source: None }),
    {
        BuildInError { kind, allowed_methods: Vec::new(), source: None }
    }

    /// Creates an error of the given kind, caused by `source`.
    pub fn with_source(kind: BuildInErrorKind, source: SourceError) -> (r: Self)
        ensures
            r@ == (BuildInErrorModel { kind, allowed_methods: Seq::empty(), source: Some(source) }),
    {
        BuildInError { kind, allowed_methods: Vec::new(), source: Some(source) }
    }

    /// Creates a `WrongMethod` error, given the allowed HTTP methods in the
    /// order in which the `Allow` header lists them.
    pub fn wrong_method(allowed_methods: Vec<Method>) -> (r: Self)
        ensures
            r@ == (BuildInErrorModel {
                kind: BuildInErrorKind::WrongMethod,
                allowed_methods: allowed_methods@,
                source: None,
            }),
    {
        BuildInError { kind: BuildInErrorKind::WrongMethod, allowed_methods, source: None }
    }

    /// Creates a `Body` error caused by `source`.
    pub fn malformed_body(source: SourceError) -> (r: Self)
        ensures
            r@ == (BuildInErrorModel {
                kind: BuildInErrorKind::Body,
                allowed_methods: Seq::empty(),
                source: Some(source),
            }),
    {
        BuildInError { kind: BuildInErrorKind::Body, allowed_methods: Vec::new(), source: Some(source) }
    }

    /// Returns the kind that further describes this error.
    pub fn kind(&self) -> (r: BuildInErrorKind)
        ensures
            r == self@.kind,
    {
        self.kind
    }

    /// Returns the HTTP status code that most closely describes this error.
    pub fn http_status(&self) -> (r: StatusCode)
        ensures
            r == status_for(self@.kind.status()),
    {
        self.kind.http_status()
    }

    /// Returns the allowed methods if this is a `WrongMethod` error, and
    /// `None` for any other kind.
    pub fn allowed_methods(&self) -> (r: Option<&[Method]>)
        ensures
            self@.kind == BuildInErrorKind::WrongMethod ==> (r matches Some(ms) && ms@
                == self@.allowed_methods),
            self@.kind != BuildInErrorKind::WrongMethod ==> r is None,
            self@.kind != BuildInErrorKind::WrongMethod ==> self@.allowed_methods.len() == 0,
    {
        proof {
            use_type_invariant(self);
        }
        if self.kind == BuildInErrorKind::WrongMethod {
            Some(self.allowed_methods.as_slice())
        } else {
            None
        }
    }

    /// The causal error, if one is stored.
    pub fn source(&self) -> (r: Option<&SourceError>)
        ensures
            r is Some <==> self@.source is Some,
            r matches Some(s) ==> *s == self@.source->Some_0,
    {
        match &self.source {
            Some(s) => Some(s),
            None => None,
        }
    }

    /// The text of this error: the kind's phrase, followed by `": "` and the
    /// cause's text when a cause is stored.
    pub fn to_string(&self) -> (r: String)
        ensures
            r@ == error_text(self@.kind, self@.source),
    {
        let mut r = String::from_str(self.kind.display_text());
        match &self.source {
            None => {},
            Some(s) => {
                r.append(": ");
                r.append(s.message());
            },
        }
        proof {
            reveal_strlit(": ");
        }
        r
    }

    /// The value of the `Allow` header that this error's response carries:
    /// present exactly for `WrongMethod` errors.
    pub fn allow_header(&self) -> (r: Option<String>)
        ensures
            r matches Some(a) ==> forall|i: int| 0 <= i < a@.len() ==> is_header_char(
                #[trigger] a@[i],
            ),
            opt_text(r) == allow_header_of(self@),
    {
        if self.kind == BuildInErrorKind::WrongMethod {
            Some(join_allowed(self.allowed_methods.as_slice()))
        } else {
            None
        }
    }

    /// Creates a bodiless HTTP response for indicating this error to the
    /// client: the error's status, and for a `WrongMethod` error the `Allow`
    /// header.
    pub fn response(&self) -> (r: Response<()>)
        ensures
            r == response_for(self@.kind.status(), allow_header_of(self@)),
    {
        let allow = self.allow_header();
        build_response(self.kind.status_code(), allow)
    }
}

/// Joins the upper-case texts of `methods` with `", "`.
fn join_allowed(methods: &[Method]) -> (r: String)
    ensures
        r@ == allow_text(methods@),
        forall|k: int| 0 <= k < r@.len() ==> is_header_char(#[trigger] r@[k]),
{
    let mut r = String::new();
    let mut i: usize = 0;
    while i < methods.len()
        invariant
            i <= methods@.len(),
            r@ == allow_text(methods@.take(i as int)),
            forall|k: int| 0 <= k < r@.len() ==> is_header_char(#[trigger] r@[k]),
        decreases methods@.len() - i,
    {
        proof {
            reveal_strlit(", ");
        }
        if i > 0 {
            r.append(", ");
        }
        let text = methods[i].as_str();
        let upper = text.to_ascii_uppercase();
        assert forall|k: int| 0 <= k < upper@.len() implies is_header_char(#[trigger] upper@[k]) by {
            assert(is_token_char(text@[k]));
        }
        r.append(upper.as_str());
        proof {
            assert(methods@.take(i + 1).drop_last() =~= methods@.take(i as int));
        }
        i = i + 1;
    }
    proof {
        assert(methods@.take(methods@.len() as int) =~= methods@);
    }
    r
}

} // verus!
