use vstd::prelude::*;
use crate::auth::{AzureBlobSinkAuthorization, CredentialRoute, credential_route_of};
use crate::connection_string::{
    ConnectionFields, ParsedConnectionString, container_url_of, read_connection_string,
};
use crate::error::BuildError;
use crate::proxy::{ProxyConfig, ProxyRoute, proxy_route_for};
use crate::url_ops::{parse_url, push_segment, url_parse, url_parse_error_text, url_push_segment};

verus! {

/// The storage service API version that shared key requests are signed for.
pub const SHARED_KEY_API_VERSION: &'static str = "2025-11-05";

/// The application id the client reports in its user agent.
pub const APPLICATION_ID: &'static str = "VectorAzureBlobSink";

/// What a shared key authorization policy is made from.
#[derive(Clone, Debug, PartialEq, Eq)]
pub struct SharedKeyPolicyConfig {
    pub account_name: String,
    pub account_key: String,
    pub api_version: String,
}

/// Where a container client points and how it authenticates.
#[derive(Clone, Debug, PartialEq, Eq)]
pub struct ClientTarget {
    /// The container URL, as its serialization.
    pub url: String,
    /// Whether requests carry a token from the authorization method's credential.
    pub token_credential: bool,
    /// The shared key that signs requests, if any.
    pub shared_key: Option<SharedKeyPolicyConfig>,
}

/// Everything a container client is built from.
#[derive(Clone, Debug, PartialEq, Eq)]
pub struct ClientPlan {
    pub target: ClientTarget,
    /// The application id of the user agent.
    pub application_id: String,
    /// How the HTTP transport reaches the container URL.
    pub proxy: ProxyRoute,
}

/// The shared key policy a connection string calls for: one made of the account
/// name and key and the API version where it has both and no shared access
/// signature, none otherwise.
pub open spec fn shared_key_for(f: ConnectionFields, policy: Option<SharedKeyPolicyConfig>) -> bool {
    match (f.shared_access_signature, f.account_name, f.account_key) {
        (None, Some(name), Some(key)) => {
            &&& policy matches Some(p)
            &&& p.account_name@ == name
            &&& p.account_key@ == key
            &&& p.api_version@ == SHARED_KEY_API_VERSION@
        },
        _ => policy is None,
    }
}

/// The outcome of deriving a client target from a connection string: refused
/// where the string is not a list of settings, where it names no blob endpoint,
/// or where the container URL it yields does not parse (with the URL parser's
/// error text); else the parsed container URL, no token credential, and the
/// shared key policy the string calls for.
pub open spec fn connection_target_ok(
    connection_string: Seq<char>,
    container_name: Seq<char>,
    result: Result<ClientTarget, BuildError>,
) -> bool {
    match read_connection_string(connection_string) {
        Err(_) => result == Err::<ClientTarget, BuildError>(BuildError::InvalidConnectionString),
        Ok(f) => match container_url_of(f, container_name) {
            None => result == Err::<ClientTarget, BuildError>(BuildError::MissingBlobEndpoint),
            Some(url) => match url_parse(url) {
                None => result matches Err(BuildError::InvalidContainerUrl { detail })
                    && detail@ == url_parse_error_text(url),
                Some(parsed) => result matches Ok(t) && {
                    &&& t.url@ == parsed
                    &&& !t.token_credential
                    &&& shared_key_for(f, t.shared_key)
                },
            },
        },
    }
}

/// The outcome of deriving a client target for a token credential: the storage
/// account URL, which must be configured, with the container name appended as a
/// path segment.
pub open spec fn account_target_ok(
    account_url: Option<String>,
    container_name: Seq<char>,
    result: Result<ClientTarget, BuildError>,
) -> bool {
    match account_url {
        None => result == Err::<ClientTarget, BuildError>(BuildError::MissingStorageAccount),
        Some(account) => match url_push_segment(account@, container_name) {
            None => result == Err::<ClientTarget, BuildError>(BuildError::InvalidAccountUrl),
            Some(url) => result matches Ok(t) && {
                &&& t.url@ == url
                &&& t.token_credential
                &&& t.shared_key is None
            },
        },
    }
}

/// A plan completes its target with the application id and the proxy route to
/// the target's URL.
pub open spec fn plan_completes(plan: ClientPlan, proxy: ProxyConfig) -> bool {
    &&& plan.application_id@ == APPLICATION_ID@
    &&& plan.proxy == proxy_route_for(proxy, plan.target.url@)
}

/// The outcome of planning the client for an authorization method: the
/// connection string route ignores the storage account; every other method
/// needs it. A failure of the target is the plan's failure; a target is
/// completed with the client options.
pub open spec fn client_plan_ok(
    authorization: AzureBlobSinkAuthorization,
    account_url: Option<String>,
    container_name: Seq<char>,
    proxy: ProxyConfig,
    result: Result<ClientPlan, BuildError>,
) -> bool {
    match credential_route_of(authorization) {
        CredentialRoute::ConnectionString { connection_string } => match result {
            Ok(plan) => connection_target_ok(connection_string@, container_name, Ok(plan.target))
                && plan_completes(plan, proxy),
            Err(e) => connection_target_ok(connection_string@, container_name, Err(e)),
        },
        CredentialRoute::TokenCredential { .. } => match result {
            Ok(plan) => account_target_ok(account_url, container_name, Ok(plan.target))
                && plan_completes(plan, proxy),
            Err(e) => account_target_ok(account_url, container_name, Err(e)),
        },
    }
}

/// Derives the client target from a connection string: the container URL it
/// names and the shared key policy its authentication calls for.
pub fn process_connection_string(connection_string: &str, container_name: &str) -> (result: Result<ClientTarget, BuildError>)
    ensures
        connection_target_ok(connection_string@, container_name@, result),
{
    let parsed = match ParsedConnectionString::parse(connection_string) {
        Ok(p) => p,
        Err(_) => {
            return Err(BuildError::InvalidConnectionString);
        },
    };
    let container_url = match parsed.container_url(container_name) {
        Some(u) => u,
        None => {
            return Err(BuildError::MissingBlobEndpoint);
        },
    };
    let url = match parse_url(container_url.as_str()) {
        Ok(url) => url,
        Err(detail) => {
            return Err(BuildError::InvalidContainerUrl { detail });
        },
    };
    let shared_key = match (&parsed.shared_access_signature, &parsed.account_name, &parsed.account_key) {
        (None, Some(name), Some(key)) => Some(
            SharedKeyPolicyConfig {
                account_name: name.clone(),
                account_key: key.clone(),
                api_version: String::from_str(SHARED_KEY_API_VERSION),
            },
        ),
        _ => None,
    };
    Ok(ClientTarget { url, token_credential: false, shared_key })
}

/// Derives the client target for a token credential: the storage account URL,
/// which must be configured, with the container appended.
pub fn account_target(account_url: &Option<String>, container_name: &str) -> (result: Result<ClientTarget, BuildError>)
    ensures
        account_target_ok(*account_url, container_name@, result),
{
    let account = match account_url {
        Some(a) => a,
        None => {
            return Err(BuildError::MissingStorageAccount);
        },
    };
    match push_segment(account.as_str(), container_name) {
        Some(url) => Ok(ClientTarget { url, token_credential: true, shared_key: None }),
        None => Err(BuildError::InvalidAccountUrl),
    }
}

/// Completes a client target with the client options: the application id and
/// the proxy route to the container URL.
pub fn plan_client(target: ClientTarget, proxy: &ProxyConfig) -> (plan: ClientPlan)
    ensures
        plan.target == target,
        plan_completes(plan, *proxy),
{
    let route = proxy.route_for(target.url.as_str());
    ClientPlan { target, application_id: String::from_str(APPLICATION_ID), proxy: route }
}

/// Plans the container client for an authorization method, the configured
/// storage account and the container.
pub fn build_client_plan(
    authorization: &AzureBlobSinkAuthorization,
    account_url: &Option<String>,
    container_name: &str,
    proxy: &ProxyConfig,
) -> (result: Result<ClientPlan, BuildError>)
    ensures
        client_plan_ok(*authorization, *account_url, container_name@, *proxy, result),
{
    let target = match authorization.credential_route() {
        CredentialRoute::ConnectionString { connection_string } =>
            process_connection_string(connection_string.as_str(), container_name),
        CredentialRoute::TokenCredential { .. } => account_target(account_url, container_name),
    };
    match target {
        Ok(t) => Ok(plan_client(t, proxy)),
        Err(e) => Err(e),
    }
}

} // verus!
