//! The one error type that every operation reports failure through.

use vstd::prelude::*;

verus! {

/// `serde_json::Error`, carried through as an opaque value.
#[verifier::external_type_specification]
#[verifier::external_body]
pub struct ExJsonError(serde_json::Error);

/// `reqwest::UrlError`, carried through as an opaque value.
#[verifier::external_type_specification]
#[verifier::external_body]
pub struct ExUrlError(reqwest::UrlError);

/// `reqwest::Error`, carried through as an opaque value.
#[verifier::external_type_specification]
#[verifier::external_body]
pub struct ExHttpError(reqwest::Error);

/// Why an operation failed. The kinds are flat: none wraps another, and a
/// caller tells them apart by matching on the variant.
#[derive(Debug)]
pub enum OpaError {
    /// The base address handed to the constructor is not an absolute URL.
    Address(reqwest::UrlError),
    /// A family segment or a resource path could not be joined onto the base
    /// URL.
    Url(reqwest::UrlError),
    /// JSON could not be written or read.
    Serde(serde_json::Error),
    /// The transport failed below the application layer.
    Http(reqwest::Error),
    /// The service answered outside the success range; the payload is the
    /// response body, taken as text.
    Opa(String),
    /// The service answered outside the success range and its body was not
    /// text.
    Unexpected(&'static str),
    /// The service answered, and no value is bound at the queried path.
    NotFound(String),
}

/// An error as a mathematical value: its kind, and the text of those kinds
/// that carry one. What a parser or the transport reported is left out.
pub enum Failure {
    Address,
    Url,
    Serde,
    Http,
    Opa(Seq<char>),
    Unexpected(Seq<char>),
    NotFound(Seq<char>),
}

impl View for OpaError {
    type V = Failure;

    open spec fn view(&self) -> Failure {
        match *self {
            OpaError::Address(_) => Failure::Address,
            OpaError::Url(_) => Failure::Url,
            OpaError::Serde(_) => Failure::Serde,
            OpaError::Http(_) => Failure::Http,
            OpaError::Opa(message) => Failure::Opa(message@),
            OpaError::Unexpected(message) => Failure::Unexpected(message@),
            OpaError::NotFound(message) => Failure::NotFound(message@),
        }
    }
}

/// A result as a mathematical value: the view of what it holds.
pub open spec fn outcome<T: View>(r: Result<T, OpaError>) -> Result<T::V, Failure> {
    match r {
        Ok(value) => Ok(value@),
        Err(e) => Err(e@),
    }
}

impl From<serde_json::Error> for OpaError {
    fn from(err: serde_json::Error) -> (r: OpaError) {
        OpaError::Serde(err)
    }
}

impl vstd::std_specs::convert::FromSpecImpl<serde_json::Error> for OpaError {
    open spec fn obeys_from_spec() -> bool {
        true
    }

    open spec fn from_spec(err: serde_json::Error) -> OpaError {
        OpaError::Serde(err)
    }
}

impl From<reqwest::Error> for OpaError {
    fn from(err: reqwest::Error) -> (r: OpaError) {
        OpaError::Http(err)
    }
}

impl vstd::std_specs::convert::FromSpecImpl<reqwest::Error> for OpaError {
    open spec fn obeys_from_spec() -> bool {
        true
    }

    open spec fn from_spec(err: reqwest::Error) -> OpaError {
        OpaError::Http(err)
    }
}

impl From<reqwest::UrlError> for OpaError {
    fn from(err: reqwest::UrlError) -> (r: OpaError) {
        OpaError::Url(err)
    }
}

impl vstd::std_specs::convert::FromSpecImpl<reqwest::UrlError> for OpaError {
    open spec fn obeys_from_spec() -> bool {
        true
    }

    open spec fn from_spec(err: reqwest::UrlError) -> OpaError {
        OpaError::Url(err)
    }
}

} // verus!
