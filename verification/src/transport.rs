//! What crosses the wire: the request that a caller is to send, the response
//! that it brings back, and the rule that turns a response's status into
//! success or failure.

use crate::error::{outcome, Failure, OpaError};
use vstd::prelude::*;
use vstd::utf8::*;

verus! {

/// The HTTP verbs that the operations use.
#[derive(Clone, Copy, Debug, PartialEq, Eq, Structural)]
pub enum Method {
    Get,
    Post,
    Put,
    Delete,
}

/// One HTTP request, ready to be sent.
#[derive(Debug)]
pub struct Request {
    pub method: Method,
    /// The absolute URL of the resource.
    pub url: String,
    /// The body, where the verb carries one.
    pub body: Option<Vec<u8>>,
    /// The media type to announce the body with, where it has one.
    pub content_type: Option<&'static str>,
}

/// A request as a mathematical value.
pub struct RequestView {
    pub method: Method,
    pub url: Seq<char>,
    pub body: Option<Seq<u8>>,
    pub content_type: Option<Seq<char>>,
}

impl View for Request {
    type V = RequestView;

    open spec fn view(&self) -> RequestView {
        RequestView {
            method: self.method,
            url: self.url@,
            body: match self.body {
                Some(bytes) => Some(bytes@),
                None => None,
            },
            content_type: match self.content_type {
                Some(name) => Some(name@),
                None => None,
            },
        }
    }
}

/// One HTTP response, read to its end.
#[derive(Debug)]
pub struct Response {
    /// The status code.
    pub status: u16,
    /// The whole body.
    pub body: Vec<u8>,
}

/// The media type of JSON.
pub open spec fn json_type() -> Seq<char> {
    "application/json"@
}

/// The message of the error for a body that is not text.
pub open spec fn invalid_utf8() -> Seq<char> {
    "Invalid UTF-8 received from OPA Agent"@
}

/// Whether `status` lies in the success range, 200 to 299.
pub open spec fn succeeded(status: u16) -> bool {
    200 <= status < 300
}

/// The failure that a response outside the success range with this body
/// amounts to: the body as the service's message where it is UTF-8, and else
/// the complaint that it is not.
pub open spec fn rejected(body: Seq<u8>) -> Failure {
    if valid_utf8(body) {
        Failure::Opa(decode_utf8(body))
    } else {
        Failure::Unexpected(invalid_utf8())
    }
}

/// What the status rule makes of a response: its body where the status lies
/// in the success range, and else the failure that its body amounts to.
pub open spec fn accepted(response: Response) -> Result<Seq<u8>, Failure> {
    if succeeded(response.status) {
        Ok(response.body@)
    } else {
        Err(rejected(response.body@))
    }
}

/// Calls `String::from_utf8`, which yields the bytes as a string exactly
/// where they are valid UTF-8.
#[verifier::external_body]
fn text_of(bytes: Vec<u8>) -> (r: Option<String>)
    ensures
        r is Some <==> valid_utf8(bytes@),
        r matches Some(text) ==> text@ == decode_utf8(bytes@),
{
    String::from_utf8(bytes).ok()
}

/// The failure that a response outside the success range with this body
/// amounts to.
pub fn rejection(body: Vec<u8>) -> (e: OpaError)
    ensures
        e@ == rejected(body@),
{
    match text_of(body) {
        Some(message) => OpaError::Opa(message),
        None => OpaError::Unexpected("Invalid UTF-8 received from OPA Agent"),
    }
}

impl Response {
    /// Whether the status lies in the success range.
    pub fn is_success(&self) -> (r: bool)
        ensures
            r == succeeded(self.status),
    {
        200 <= self.status && self.status < 300
    }

    /// Applies the status rule: the body of a response in the success range,
    /// the rejection of any other. No status outside the range is told from
    /// another.
    pub fn accept(self) -> (r: Result<Vec<u8>, OpaError>)
        ensures
            outcome(r) == accepted(self),
    {
        if self.is_success() {
            Ok(self.body)
        } else {
            Err(rejection(self.body))
        }
    }
}

} // verus!
