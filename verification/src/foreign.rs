//! Trusted access to the three facets of the wrapped foreign errors: their
//! own display message, their short description, and their optional cause.
//!
//! Nothing is promised of these strings: the wrapped errors' own `Display`
//! and `Error` impls decide them, and the library's contracts for the
//! wrapping variants delegate rather than describe.

use vstd::prelude::*;
use std::error::Error;

verus! {

/// Relies on the `std::fmt::Display` impl of `std::io::Error`: renders the
/// error's own message.
#[verifier::external_body]
pub(crate) fn io_error_message(e: &std::io::Error) -> String {
    e.to_string()
}

/// Relies on `std::error::Error::description` of `std::io::Error`: the
/// error's own short description.
#[allow(deprecated)]
#[verifier::external_body]
pub(crate) fn io_error_description(e: &std::io::Error) -> String {
    e.description().to_string()
}

/// Relies on `std::error::Error::cause` of `std::io::Error`: the underlying
/// cause, if any, rendered through its own `Display`.
#[allow(deprecated)]
#[verifier::external_body]
pub(crate) fn io_error_cause(e: &std::io::Error) -> Option<String> {
    e.cause().map(|c| c.to_string())
}

/// Relies on the `std::fmt::Display` impl of `std::string::FromUtf8Error`:
/// renders the error's own message.
#[verifier::external_body]
pub(crate) fn utf8_error_message(e: &std::string::FromUtf8Error) -> String {
    e.to_string()
}

/// Relies on `std::error::Error::description` of
/// `std::string::FromUtf8Error`: the error's own short description.
#[allow(deprecated)]
#[verifier::external_body]
pub(crate) fn utf8_error_description(e: &std::string::FromUtf8Error) -> String {
    e.description().to_string()
}

/// Relies on `std::error::Error::cause` of `std::string::FromUtf8Error`: the
/// underlying cause, if any, rendered through its own `Display`.
#[allow(deprecated)]
#[verifier::external_body]
pub(crate) fn utf8_error_cause(e: &std::string::FromUtf8Error) -> Option<String> {
    e.cause().map(|c| c.to_string())
}

} // verus!
