//! Errors raised while extracting typed handler input from an HTTP request,
//! and the HTTP responses that report them.

mod http_ext;
mod build_in;
mod from_request;
mod kind;
mod source;

pub use build_in::{allow_header_of, allow_text, error_text, BuildInError, BuildInErrorModel};
pub use from_request::{FromRequestError, NoCustomError};
pub use http_ext::{
    ascii_upper, ascii_upper_char, is_header_char, is_token_char, method_text, opt_text,
    response_for, status_for,
};
pub use kind::{lemma_status_classes, BuildInErrorKind};
pub use source::SourceError;
