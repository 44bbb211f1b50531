use vstd::prelude::*;

verus! {

/// Why a sink cannot be built from its configuration.
#[derive(Clone, Debug, PartialEq, Eq)]
pub enum BuildError {
    /// Neither a connection string nor an authorization method is configured.
    MissingAuthorization,
    /// Both a connection string and an authorization method are configured.
    ConflictingAuthorization,
    /// An authorization method other than a connection string needs the storage
    /// account URL, and none is configured.
    MissingStorageAccount,
    /// The storage account URL has no path segments to append the container to.
    InvalidAccountUrl,
    /// A user assigned managed identity is configured without its id.
    MissingManagedIdentityId,
    /// The connection string has a non-empty segment that is not `Key=Value`.
    InvalidConnectionString,
    /// The connection string names neither a blob endpoint nor an account.
    MissingBlobEndpoint,
    /// The container URL derived from a connection string is not a URL; the
    /// detail is the URL parser's error text.
    InvalidContainerUrl { detail: String },
}

/// The message text of a build error.
pub open spec fn build_error_message(error: BuildError) -> Seq<char> {
    match error {
        BuildError::MissingAuthorization =>
            "Either a connection string or an authorization method must be provided"@,
        BuildError::ConflictingAuthorization =>
            "Both connection string and authorization method cannot be provided at the same time"@,
        BuildError::MissingStorageAccount =>
            "Storage account must be provided when using managed identity authentication"@,
        BuildError::InvalidAccountUrl =>
            "Invalid account URL: missing path segments for container name"@,
        BuildError::MissingManagedIdentityId =>
            "A managed identity id must be provided for a user assigned managed identity"@,
        BuildError::InvalidConnectionString =>
            "Invalid connection string: a segment is not of the form Key=Value"@,
        BuildError::MissingBlobEndpoint =>
            "Failed to build container URL: the connection string names neither BlobEndpoint nor AccountName"@,
        BuildError::InvalidContainerUrl { detail } => "Invalid container URL: "@ + detail@,
    }
}

impl BuildError {
    /// The error's message, as it is reported to the user.
    pub fn message(&self) -> (text: String)
        ensures
            text@ == build_error_message(*self),
    {
        match self {
            BuildError::MissingAuthorization => String::from_str(
                "Either a connection string or an authorization method must be provided",
            ),
            BuildError::ConflictingAuthorization => String::from_str(
                "Both connection string and authorization method cannot be provided at the same time",
            ),
            BuildError::MissingStorageAccount => String::from_str(
                "Storage account must be provided when using managed identity authentication",
            ),
            BuildError::InvalidAccountUrl => String::from_str(
                "Invalid account URL: missing path segments for container name",
            ),
            BuildError::MissingManagedIdentityId => String::from_str(
                "A managed identity id must be provided for a user assigned managed identity",
            ),
            BuildError::InvalidConnectionString => String::from_str(
                "Invalid connection string: a segment is not of the form Key=Value",
            ),
            BuildError::MissingBlobEndpoint => String::from_str(
                "Failed to build container URL: the connection string names neither BlobEndpoint nor AccountName",
            ),
            BuildError::InvalidContainerUrl { detail } => {
                let text = String::from_str("Invalid container URL: ");
                text.concat(detail.as_str())
            },
        }
    }
}

} // verus!
