use vstd::prelude::*;
use crate::status::HttpStatus;
use crate::text::{decimal, decimal_string};

verus! {

/// HTTP status `403 Forbidden`.
pub const FORBIDDEN: u16 = 403;

/// HTTP status `404 Not Found`.
pub const NOT_FOUND: u16 = 404;

/// Why the storage container failed its health check.
#[derive(Clone, Debug, PartialEq, Eq)]
pub enum HealthcheckError {
    /// The service refused the credentials (`403`).
    InvalidCredentials,
    /// The container does not exist (`404`).
    UnknownContainer { container: String },
    /// The service answered with another status code.
    Unknown { status: u16 },
}

/// How a failed health check is reported.
#[derive(Clone, Debug, PartialEq, Eq)]
pub enum HealthcheckFailure {
    /// The service answered with an HTTP status.
    Status(HealthcheckError),
    /// The request failed without an HTTP status.
    MissingStatus,
}

/// The report of a health check whose container properties request succeeded
/// (`Ok`) or failed with an optional HTTP status (`Err`): the named codes
/// `403 Forbidden` and `404 Not Found` have reports of their own; every other
/// status, an unnamed `403` or `404` included, is reported by its number.
pub open spec fn healthcheck_report(
    container_name: String,
    outcome: Result<(), Option<HttpStatus>>,
) -> Result<(), HealthcheckFailure> {
    match outcome {
        Ok(()) => Ok(()),
        Err(None) => Err(HealthcheckFailure::MissingStatus),
        Err(Some(s)) => Err(HealthcheckFailure::Status(
            if s.named && s.code == FORBIDDEN {
                HealthcheckError::InvalidCredentials
            } else if s.named && s.code == NOT_FOUND {
                HealthcheckError::UnknownContainer { container: container_name }
            } else {
                HealthcheckError::Unknown { status: s.code }
            },
        )),
    }
}

/// Reports the outcome of the container properties request that checks the
/// health of the sink's container.
pub fn healthcheck_outcome(container_name: String, outcome: Result<(), Option<HttpStatus>>) -> (report: Result<(), HealthcheckFailure>)
    ensures
        report == healthcheck_report(container_name, outcome),
{
    match outcome {
        Ok(()) => Ok(()),
        Err(None) => Err(HealthcheckFailure::MissingStatus),
        Err(Some(s)) => {
            let error = if s.named && s.code == FORBIDDEN {
                HealthcheckError::InvalidCredentials
            } else if s.named && s.code == NOT_FOUND {
                HealthcheckError::UnknownContainer { container: container_name }
            } else {
                HealthcheckError::Unknown { status: s.code }
            };
            Err(HealthcheckFailure::Status(error))
        },
    }
}

/// The `Debug` rendering of a text (`<str as core::fmt::Debug>::fmt`): quoted,
/// with special characters escaped.
pub uninterp spec fn debug_text(text: Seq<char>) -> Seq<char>;

/// Renders a text with its `Debug` impl (`format!("{:?}", text)`). Claims: the
/// result is the one `debug_text` names.
#[verifier::external_body]
fn debug_string(text: &str) -> (rendered: String)
    ensures
        rendered@ == debug_text(text@),
{
    format!("{:?}", text)
}

/// The message text of a health check error.
pub open spec fn healthcheck_error_message(error: HealthcheckError) -> Seq<char> {
    match error {
        HealthcheckError::InvalidCredentials => "Invalid connection string specified"@,
        HealthcheckError::UnknownContainer { container } =>
            "Container: "@ + debug_text(container@) + " not found"@,
        HealthcheckError::Unknown { status } => "Unknown status code: "@ + decimal(status as nat),
    }
}

impl HealthcheckError {
    /// The error's message, as it is reported to the user.
    pub fn message(&self) -> (text: String)
        ensures
            text@ == healthcheck_error_message(*self),
    {
        match self {
            HealthcheckError::InvalidCredentials => String::from_str("Invalid connection string specified"),
            HealthcheckError::UnknownContainer { container } => {
                let text = String::from_str("Container: ");
                let quoted = debug_string(container.as_str());
                let text = text.concat(quoted.as_str());
                text.concat(" not found")
            },
            HealthcheckError::Unknown { status } => {
                let text = String::from_str("Unknown status code: ");
                let number = decimal_string(*status as u64);
                text.concat(number.as_str())
            },
        }
    }
}

impl HealthcheckFailure {
    /// The failure's message, as it is reported to the user.
    pub fn message(&self) -> (text: String)
        ensures
            text@ == match *self {
                HealthcheckFailure::Status(error) => healthcheck_error_message(error),
                HealthcheckFailure::MissingStatus => "unknown status code"@,
            },
    {
        match self {
            HealthcheckFailure::Status(error) => error.message(),
            HealthcheckFailure::MissingStatus => String::from_str("unknown status code"),
        }
    }
}

} // verus!
