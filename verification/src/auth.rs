use vstd::prelude::*;
use crate::error::BuildError;

verus! {

/// The type of managed identity to use for authentication when using Managed
/// Identity Credential authentication.
#[derive(Clone, Copy, Debug, PartialEq, Eq, Structural)]
pub enum ManagedIdentityType {
    /// System assigned managed identity: enabled directly on an Azure resource
    /// and not shared across resources.
    SystemAssigned,
    /// User assigned managed identity, identified by client ID.
    ClientId,
    /// User assigned managed identity, identified by resource ID.
    ResourceId,
    /// User assigned managed identity, identified by object ID.
    ObjectId,
}

/// Authorization methods for the Azure Blob Storage sink. Secrets (connection
/// strings, access tokens, certificates, client secrets) are held as text.
#[derive(Clone, Debug, PartialEq, Eq)]
pub enum AzureBlobSinkAuthorization {
    /// The storage account connection string (access key or SAS).
    ConnectionString { connection_string: String },
    /// Developer Tools Credential, for local development.
    DeveloperToolsCredential,
    /// Azure CLI Credential.
    AzureCliCredential { tenant_id: String, subscription: String },
    /// Azure Developer CLI Credential; the tenant defaults to the azd environment.
    AzureDeveloperCliCredential { tenant_id: Option<String> },
    /// An Azure Pipelines Service Connection.
    AzurePipelinesCredential {
        service_connection_id: String,
        tenant_id: String,
        subscription_id: String,
        system_access_token: String,
    },
    /// An Entra Workload Identity on Kubernetes.
    WorkloadIdentityCredential {
        tenant_id: String,
        client_id: String,
        subscription_id: String,
        system_access_token: String,
    },
    /// Managed Identity Credential.
    ManagedIdentityCredential {
        managed_identity_type: ManagedIdentityType,
        managed_identity_id: Option<String>,
    },
    /// Client Assertion Credential.
    ClientAssertionCredential { tenant_id: String, client_id: String, subscription_id: String },
    /// Client Certificate Credential: a base64 PKCS12 certificate and its password.
    ClientCertificateCredential {
        tenant_id: String,
        client_id: String,
        certificate: String,
        certificate_password: Option<String>,
    },
    /// Client Secret Credential.
    ClientSecretCredential { tenant_id: String, client_id: String, client_secret: String },
}

/// How a client authenticates for a given authorization method.
#[derive(Clone, Debug, PartialEq, Eq)]
pub enum CredentialRoute {
    /// Decompose the connection string into a container URL and an optional
    /// shared key policy; no token credential.
    ConnectionString { connection_string: String },
    /// A token credential made from the authorization method, against the
    /// configured storage account.
    TokenCredential { authorization: AzureBlobSinkAuthorization },
}

/// The route that client building takes for an authorization method: a
/// connection string is decomposed; every other method authenticates with a
/// token credential made from its own settings.
pub open spec fn credential_route_of(auth: AzureBlobSinkAuthorization) -> CredentialRoute {
    match auth {
        AzureBlobSinkAuthorization::ConnectionString { connection_string } =>
            CredentialRoute::ConnectionString { connection_string },
        _ => CredentialRoute::TokenCredential { authorization: auth },
    }
}

/// A user assigned managed identity, by the kind of id that names it.
#[derive(Clone, Debug, PartialEq, Eq)]
pub enum UserAssignedIdentity {
    ClientId { id: String },
    ResourceId { id: String },
    ObjectId { id: String },
}

/// Which managed identity a Managed Identity Credential uses: the system
/// assigned one (any id is ignored), or the user assigned one that the id
/// names, which must then be given.
pub open spec fn user_assigned_identity_of(
    kind: ManagedIdentityType,
    id: Option<String>,
) -> Result<Option<UserAssignedIdentity>, BuildError> {
    match kind {
        ManagedIdentityType::SystemAssigned => Ok(None),
        _ => match id {
            None => Err(BuildError::MissingManagedIdentityId),
            Some(id) => Ok(Some(match kind {
                ManagedIdentityType::ClientId => UserAssignedIdentity::ClientId { id },
                ManagedIdentityType::ResourceId => UserAssignedIdentity::ResourceId { id },
                _ => UserAssignedIdentity::ObjectId { id },
            })),
        },
    }
}

/// Selects the managed identity of a Managed Identity Credential.
pub fn user_assigned_identity(kind: ManagedIdentityType, id: &Option<String>) -> (selected: Result<Option<UserAssignedIdentity>, BuildError>)
    ensures
        selected == user_assigned_identity_of(kind, *id),
{
    match kind {
        ManagedIdentityType::SystemAssigned => Ok(None),
        _ => match id {
            None => Err(BuildError::MissingManagedIdentityId),
            Some(id) => {
                let id = id.clone();
                Ok(Some(match kind {
                    ManagedIdentityType::ClientId => UserAssignedIdentity::ClientId { id },
                    ManagedIdentityType::ResourceId => UserAssignedIdentity::ResourceId { id },
                    _ => UserAssignedIdentity::ObjectId { id },
                }))
            },
        },
    }
}

/// A copy of an optional text.
pub fn copy_opt_text(text: &Option<String>) -> (copy: Option<String>)
    ensures
        copy == *text,
{
    match text {
        Some(t) => Some(t.clone()),
        None => None,
    }
}

impl AzureBlobSinkAuthorization {
    /// A copy of the authorization, equal to it.
    pub fn duplicate(&self) -> (copy: Self)
        ensures
            copy == *self,
    {
        match self {
            AzureBlobSinkAuthorization::ConnectionString { connection_string } =>
                AzureBlobSinkAuthorization::ConnectionString {
                    connection_string: connection_string.clone(),
                },
            AzureBlobSinkAuthorization::DeveloperToolsCredential =>
                AzureBlobSinkAuthorization::DeveloperToolsCredential,
            AzureBlobSinkAuthorization::AzureCliCredential { tenant_id, subscription } =>
                AzureBlobSinkAuthorization::AzureCliCredential {
                    tenant_id: tenant_id.clone(),
                    subscription: subscription.clone(),
                },
            AzureBlobSinkAuthorization::AzureDeveloperCliCredential { tenant_id } =>
                AzureBlobSinkAuthorization::AzureDeveloperCliCredential {
                    tenant_id: copy_opt_text(tenant_id),
                },
            AzureBlobSinkAuthorization::AzurePipelinesCredential {
                service_connection_id,
                tenant_id,
                subscription_id,
                system_access_token,
            } => AzureBlobSinkAuthorization::AzurePipelinesCredential {
                service_connection_id: service_connection_id.clone(),
                tenant_id: tenant_id.clone(),
                subscription_id: subscription_id.clone(),
                system_access_token: system_access_token.clone(),
            },
            AzureBlobSinkAuthorization::WorkloadIdentityCredential {
                tenant_id,
                client_id,
                subscription_id,
                system_access_token,
            } => AzureBlobSinkAuthorization::WorkloadIdentityCredential {
                tenant_id: tenant_id.clone(),
                client_id: client_id.clone(),
                subscription_id: subscription_id.clone(),
                system_access_token: system_access_token.clone(),
            },
            AzureBlobSinkAuthorization::ManagedIdentityCredential {
                managed_identity_type,
                managed_identity_id,
            } => AzureBlobSinkAuthorization::ManagedIdentityCredential {
                managed_identity_type: *managed_identity_type,
                managed_identity_id: copy_opt_text(managed_identity_id),
            },
            AzureBlobSinkAuthorization::ClientAssertionCredential {
                tenant_id,
                client_id,
                subscription_id,
            } => AzureBlobSinkAuthorization::ClientAssertionCredential {
                tenant_id: tenant_id.clone(),
                client_id: client_id.clone(),
                subscription_id: subscription_id.clone(),
            },
            AzureBlobSinkAuthorization::ClientCertificateCredential {
                tenant_id,
                client_id,
                certificate,
                certificate_password,
            } => AzureBlobSinkAuthorization::ClientCertificateCredential {
                tenant_id: tenant_id.clone(),
                client_id: client_id.clone(),
                certificate: certificate.clone(),
                certificate_password: copy_opt_text(certificate_password),
            },
            AzureBlobSinkAuthorization::ClientSecretCredential {
                tenant_id,
                client_id,
                client_secret,
            } => AzureBlobSinkAuthorization::ClientSecretCredential {
                tenant_id: tenant_id.clone(),
                client_id: client_id.clone(),
                client_secret: client_secret.clone(),
            },
        }
    }

    /// The route that client building takes for this authorization method.
    pub fn credential_route(&self) -> (route: CredentialRoute)
        ensures
            route == credential_route_of(*self),
    {
        match self {
            AzureBlobSinkAuthorization::ConnectionString { connection_string } =>
                CredentialRoute::ConnectionString { connection_string: connection_string.clone() },
            _ => CredentialRoute::TokenCredential { authorization: self.duplicate() },
        }
    }
}

} // verus!
