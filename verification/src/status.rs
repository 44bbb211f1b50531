//! HTTP statuses of failed storage requests, read from `azure_core` errors.

use vstd::prelude::*;

verus! {

/// The `azure_core` error type that requests to the storage service fail with.
#[verifier::external_type_specification]
#[verifier::external_body]
pub struct ExAzureCoreError(azure_core::Error);

/// An HTTP status as `azure_core` holds it: its number, and whether it is one
/// of the named status codes. A number without a named code is held as
/// `StatusCode::UnknownValue`, which never equals a named code, even one with
/// the same number.
#[derive(Clone, Copy, Debug, PartialEq, Eq, Structural)]
pub struct HttpStatus {
    pub code: u16,
    pub named: bool,
}

/// The status `azure_core::Error::http_status` reads from an error: the status
/// of an HTTP response error, `None` for other kinds of errors.
pub uninterp spec fn azure_error_http_status(error: azure_core::Error) -> Option<HttpStatus>;

/// Reads the HTTP status of an `azure_core` error through
/// `azure_core::Error::http_status`: `StatusCode::UnknownValue(n)` becomes an
/// unnamed status `n`, any other code a named status with its number
/// (`u16::from`). Claims: the result is the one `azure_error_http_status`
/// names for the error.
#[verifier::external_body]
fn error_http_status(error: &azure_core::Error) -> (status: Option<HttpStatus>)
    ensures
        status == azure_error_http_status(*error),
{
    match error.http_status() {
        None => None,
        Some(azure_core::http::StatusCode::UnknownValue(code)) => Some(HttpStatus { code, named: false }),
        Some(code) => Some(HttpStatus { code: u16::from(code), named: true }),
    }
}

/// The HTTP status an error carries, if it is an HTTP response error.
pub fn http_status_of(error: &azure_core::Error) -> (status: Option<HttpStatus>)
    ensures
        status == azure_error_http_status(*error),
{
    error_http_status(error)
}

} // verus!
