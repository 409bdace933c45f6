//! The causal error that a built-in error may carry.

use vstd::prelude::*;

verus! {

/// An owned causal error: the text it displays and, optionally, the error
/// that caused it in turn.
#[derive(Debug, PartialEq, Eq)]
pub struct SourceError {
    /// What the error displays.
    pub message: String,
    /// The error that caused this one, if any.
    pub source: Option<Box<SourceError>>,
}

impl SourceError {
    /// Creates a causal error with the given text and no further cause.
    pub fn new(message: String) -> (r: Self)
        ensures
            r.message == message,
            r.source is None,
    {
        SourceError { message, source: None }
    }

    /// Creates a causal error with the given text, caused by `source`.
    pub fn caused_by(message: String, source: SourceError) -> (r: Self)
        ensures
            r.message == message,
            r.source == Some(Box::new(source)),
    {
        SourceError { message, source: Some(Box::new(source)) }
    }

    /// The text this error displays.
    pub fn message(&self) -> (r: &str)
        ensures
            r@ == self.message@,
    {
        self.message.as_str()
    }

    /// The error that caused this one, if any.
    pub fn source(&self) -> (r: Option<&SourceError>)
        ensures
            r is Some <==> self.source is Some,
            r matches Some(s) ==> *s == *self.source->Some_0,
    {
        match &self.source {
            Some(s) => Some(&**s),
            None => None,
        }
    }
}

} // verus!
