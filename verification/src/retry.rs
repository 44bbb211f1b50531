use vstd::prelude::*;
use crate::status::{HttpStatus, azure_error_http_status, http_status_of};

verus! {

/// `true` when an HTTP status code lies in the server error range `5xx`.
pub open spec fn is_server_error(code: u16) -> bool {
    500 <= code && code < 600
}

/// HTTP status `429 Too Many Requests`.
pub const TOO_MANY_REQUESTS: u16 = 429;

/// A failed request is retried when it carries an HTTP status that is a server
/// error (by its number) or the named code `429 Too Many Requests`; a failure
/// without a status is not retried.
pub open spec fn retriable_status(status: Option<HttpStatus>) -> bool {
    match status {
        Some(s) => is_server_error(s.code) || (s.named && s.code == TOO_MANY_REQUESTS),
        None => false,
    }
}

/// Retry policy of the sink's requests.
#[derive(Clone, Copy, Debug)]
pub struct AzureBlobRetryLogic;

impl AzureBlobRetryLogic {
    /// Decides on the HTTP status of a failed request whether it is retried.
    pub fn is_retriable_status(&self, status: Option<HttpStatus>) -> (retry: bool)
        ensures
            retry == retriable_status(status),
    {
        match status {
            Some(s) => (500 <= s.code && s.code < 600) || (s.named && s.code == TOO_MANY_REQUESTS),
            None => false,
        }
    }

    /// Decides whether a failed request is retried: it is when the error is an
    /// HTTP response error whose status is a server error or `429`.
    pub fn is_retriable_error(&self, error: &azure_core::Error) -> (retry: bool)
        ensures
            retry == retriable_status(azure_error_http_status(*error)),
    {
        let status = http_status_of(error);
        self.is_retriable_status(status)
    }
}

} // verus!
