//! A transport-free client for a policy-decision service that speaks JSON over
//! HTTP.
//!
//! The crate composes requests and interprets responses; carrying a
//! [`Request`] to the service and bringing its [`Response`] back is left to
//! the caller, so every function here is a pure function of its arguments.
//!
//! - [`address`] resolves the URL of a resource below a base address.
//! - [`envelope`] frames the input of a query and reads its answer.
//! - [`transport`] holds requests, responses and the status rule.
//! - [`client`] has one request builder and one response reader per
//!   operation.
//! - [`error`] is the one error type of them all.

pub mod address;
pub mod client;
pub mod envelope;
pub mod error;
pub mod transport;

pub use address::Family;
pub use client::Client;
pub use envelope::Output;
pub use error::OpaError;
pub use transport::{Method, Request, Response};
