//! The error of request extraction: a built-in failure or an error of the
//! embedding application.

use crate::build_in::{BuildInError, BuildInErrorModel};
use crate::kind::BuildInErrorKind;
use crate::source::SourceError;
use futures::future::Ready;
use http::Method;
use vstd::prelude::*;

verus! {

/// The error type to use where no custom error is needed.
pub type NoCustomError = hyper::Error;

#[verifier::external_type_specification]
#[verifier::external_body]
#[verifier::reject_recursive_types(T)]
pub struct ExReady<T>(Ready<T>);

/// Relies on `futures::future::err`: a future that is ready at once with
/// `Err(err)`.
pub assume_specification<T, E>[ futures::future::err::<T, E> ](err: E) -> Ready<Result<T, E>>;

/// Error returned while extracting a request: either a custom error of the
/// application or a built-in one.
#[derive(Debug)]
pub enum FromRequestError<E> {
    /// Custom error of the embedding application.
    Custom(E),
    /// Built-in error raised by the library's extraction logic.
    BuildIn(BuildInError),
}

impl<E> FromRequestError<E> {
    /// Creates a `BuildIn` error of kind `Body`, caused by `source`.
    pub fn malformed_body(source: SourceError) -> (r: Self)
        ensures
            r matches FromRequestError::BuildIn(b) && b@ == (BuildInErrorModel {
                kind: BuildInErrorKind::Body,
                allowed_methods: Seq::empty(),
                source: Some(source),
            }),
    {
        FromRequestError::BuildIn(BuildInError::malformed_body(source))
    }

    /// Creates a `BuildIn` error of kind `WrongMethod` with the allowed
    /// methods.
    pub fn wrong_method(allowed_methods: Vec<Method>) -> (r: Self)
        ensures
            r matches FromRequestError::BuildIn(b) && b@ == (BuildInErrorModel {
                kind: BuildInErrorKind::WrongMethod,
                allowed_methods: allowed_methods@,
                source: None,
            }),
    {
        FromRequestError::BuildIn(BuildInError::wrong_method(allowed_methods))
    }

    /// Creates a `BuildIn` error of kind `NoMatchingRoute`.
    pub fn no_matching_route() -> (r: Self)
        ensures
            r matches FromRequestError::BuildIn(b) && b@ == (BuildInErrorModel {
                kind: BuildInErrorKind::NoMatchingRoute,
                allowed_methods: Seq::empty(),
                source: None,
            }),
    {
        let build_in = BuildInError::from_kind(BuildInErrorKind::NoMatchingRoute);
        FromRequestError::BuildIn(build_in)
    }

    /// The built-in error, if this is one.
    pub fn as_build_in(&self) -> (r: Option<&BuildInError>)
        ensures
            r is Some <==> self is BuildIn,
            r matches Some(b) ==> *b == self->BuildIn_0,
    {
        match self {
            FromRequestError::BuildIn(err) => Some(err),
            _ => None,
        }
    }

    /// The built-in error if this is one; otherwise `self`, unchanged.
    pub fn into_build_in(self) -> (r: Result<BuildInError, Self>)
        ensures
            self is BuildIn ==> r == Ok::<BuildInError, Self>(self->BuildIn_0),
            self is Custom ==> r == Err::<BuildInError, Self>(self),
    {
        match self {
            FromRequestError::BuildIn(err) => Ok(err),
            other => Err(other),
        }
    }

    /// The custom error, if this is one.
    pub fn as_custom(&self) -> (r: Option<&E>)
        ensures
            r is Some <==> self is Custom,
            r matches Some(e) ==> *e == self->Custom_0,
    {
        match self {
            FromRequestError::Custom(err) => Some(err),
            _ => None,
        }
    }

    /// The custom error if this is one; otherwise `self`, unchanged.
    pub fn into_custom(self) -> (r: Result<E, Self>)
        ensures
            self is Custom ==> r == Ok::<E, Self>(self->Custom_0),
            self is BuildIn ==> r == Err::<E, Self>(self),
    {
        match self {
            FromRequestError::Custom(err) => Ok(err),
            other => Err(other),
        }
    }

    /// A future that is ready at once with `Err(self)`, for extraction code
    /// that returns a future on every path.
    pub fn into_future<T: Send + 'static>(self) -> Ready<Result<T, Self>>
        where E: Send + 'static,
    {
        futures::future::err(self)
    }

    /// Converts the custom error through `Into`; a built-in error is moved
    /// over as it is.
    pub fn convert_custom_error<NewError>(self) -> (r: FromRequestError<NewError>)
        where E: Into<NewError>,
        ensures
            self is Custom <==> r is Custom,
            self matches FromRequestError::Custom(e) ==> call_ensures(
                <E as Into<NewError>>::into,
                (e,),
                r->Custom_0,
            ),
            self matches FromRequestError::BuildIn(b) ==> r == FromRequestError::<NewError>::BuildIn(b),
    {
        match self {
            FromRequestError::Custom(err) => FromRequestError::Custom(err.into()),
            FromRequestError::BuildIn(err) => FromRequestError::BuildIn(err),
        }
    }
}

} // verus!
