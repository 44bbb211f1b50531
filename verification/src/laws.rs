//! Properties of the sink's configuration logic that span its functions.

use vstd::prelude::*;
use crate::auth::{
    AzureBlobSinkAuthorization, CredentialRoute, ManagedIdentityType, credential_route_of,
    user_assigned_identity_of,
};
use crate::client::{ClientPlan, ClientTarget, client_plan_ok, connection_target_ok};
use crate::connection_string::{
    ConnectionFields, ConnectionStringAuth, apply_setting, auth_of, container_url_of, key_value,
    read_connection_string, split_segments,
};
use crate::auth::UserAssignedIdentity;
use crate::url_ops::{url_host, url_parse, url_parse_error_text, url_port};
use crate::proxy::no_proxy_matches;
use crate::connection_string::texts;
use crate::config::{
    AzureBlobSinkConfig, BlobNamingOptions, config_plan_ok, naming_options_of, resolved_authorization,
};
use crate::error::BuildError;
use crate::health::{HealthcheckError, HealthcheckFailure, healthcheck_report};
use crate::proxy::{ProxyConfig, ProxyRoute, proxy_route_for};
use crate::retry::retriable_status;
use crate::shared_key::{
    SharedKeyRequest, is_string_to_sign, ms_headers, shared_key_text, sorted_arrangement,
};
use crate::sorting::{lemma_sorted_pairs_unique, pairs_view};
use crate::status::HttpStatus;
use crate::text::{decimal, digit_char};

verus! {

/// A sink is built only when exactly one of a connection string and an
/// authorization method is configured.
pub proof fn law_authorization_exactly_one(
    connection_string: Option<String>,
    authorization: Option<AzureBlobSinkAuthorization>,
)
    ensures
        resolved_authorization(connection_string, authorization) is Ok
            <==> (connection_string is Some) != (authorization is Some),
{
}

/// A configured connection string is what the client authenticates with: it
/// becomes the connection string method, whose client route carries that same
/// connection string.
pub proof fn law_connection_string_reaches_client(connection_string: String)
    ensures
        resolved_authorization(Some(connection_string), None)
            == Ok::<AzureBlobSinkAuthorization, BuildError>(
            AzureBlobSinkAuthorization::ConnectionString { connection_string },
        ),
        credential_route_of(AzureBlobSinkAuthorization::ConnectionString { connection_string })
            == (CredentialRoute::ConnectionString { connection_string }),
{
}

/// Every authorization method besides a connection string authenticates with a
/// token credential made from that method's own settings.
pub proof fn law_other_methods_use_token_credentials(auth: AzureBlobSinkAuthorization)
    requires
        !(auth is ConnectionString),
    ensures
        credential_route_of(auth) == (CredentialRoute::TokenCredential { authorization: auth }),
{
}

/// Authorization methods other than a connection string need the storage
/// account URL: without it no client is planned.
pub proof fn law_token_credentials_need_account(
    auth: AzureBlobSinkAuthorization,
    container_name: Seq<char>,
    proxy: ProxyConfig,
    result: Result<ClientPlan, BuildError>,
)
    requires
        !(auth is ConnectionString),
        client_plan_ok(auth, None, container_name, proxy, result),
    ensures
        result == Err::<ClientPlan, BuildError>(BuildError::MissingStorageAccount),
{
}

/// A connection string carries its own endpoint: the configured storage
/// account makes no difference to the client planned for it.
pub proof fn law_connection_string_ignores_account(
    connection_string: String,
    account_a: Option<String>,
    account_b: Option<String>,
    container_name: Seq<char>,
    proxy: ProxyConfig,
    result: Result<ClientPlan, BuildError>,
)
    ensures
        client_plan_ok(
            AzureBlobSinkAuthorization::ConnectionString { connection_string },
            account_a,
            container_name,
            proxy,
            result,
        ) == client_plan_ok(
            AzureBlobSinkAuthorization::ConnectionString { connection_string },
            account_b,
            container_name,
            proxy,
            result,
        ),
{
}

/// A client planned from a connection string has no token credential; one
/// planned for another method has one.
pub proof fn law_token_credential_by_method(
    auth: AzureBlobSinkAuthorization,
    account_url: Option<String>,
    container_name: Seq<char>,
    proxy: ProxyConfig,
    result: Result<ClientPlan, BuildError>,
)
    requires
        client_plan_ok(auth, account_url, container_name, proxy, result),
    ensures
        result matches Ok(plan) ==> plan.target.token_credential == !(auth is ConnectionString),
        !(auth is ConnectionString) ==> (result matches Ok(plan) ==> plan.target.shared_key is None),
{
}

/// Building fails first on the authorization: where it cannot be resolved, that
/// is the outcome, whatever else is configured.
pub proof fn law_build_fails_on_authorization_first(
    config: AzureBlobSinkConfig,
    proxy: ProxyConfig,
    result: Result<ClientPlan, BuildError>,
)
    requires
        config_plan_ok(config, proxy, result),
        (config.connection_string is Some) == (config.authorization is Some),
    ensures
        result == Err::<ClientPlan, BuildError>(
            if config.connection_string is Some {
                BuildError::ConflictingAuthorization
            } else {
                BuildError::MissingAuthorization
            },
        ),
{
}

/// The system assigned managed identity ignores any configured id; a user
/// assigned one is named by the id, which must be configured.
pub proof fn law_managed_identity_selection(kind: ManagedIdentityType, id: Option<String>)
    ensures
        kind == ManagedIdentityType::SystemAssigned ==> user_assigned_identity_of(kind, id) is Ok
            && user_assigned_identity_of(kind, id)->Ok_0 is None,
        kind != ManagedIdentityType::SystemAssigned ==> (user_assigned_identity_of(kind, id) is Ok
            <==> id is Some),
{
}

/// A configured time format is kept as it is, so an empty one appends no
/// timestamp; only an unset one falls back to the default.
pub proof fn law_configured_naming_kept(config: AzureBlobSinkConfig, options: BlobNamingOptions)
    requires
        naming_options_of(config, options),
    ensures
        config.blob_time_format matches Some(f) ==> options.blob_time_format@ == f@,
        config.blob_append_uuid matches Some(b) ==> options.blob_append_uuid == b,
        config.blob_time_format is None ==> options.blob_time_format@ == seq!['%', 's'],
        config.blob_append_uuid is None ==> options.blob_append_uuid,
        options.container_name == config.container_name,
{
    reveal_strlit("%s");
}

/// Failures without an HTTP status are never retried, and neither are client
/// errors other than the named `429`; every server error is retried.
pub proof fn law_retry_only_server_errors_and_throttling(status: Option<HttpStatus>)
    ensures
        status is None ==> !retriable_status(status),
        status matches Some(s) && 400 <= s.code < 500 && !(s.named && s.code == 429)
            ==> !retriable_status(status),
        status matches Some(s) && 500 <= s.code < 600 ==> retriable_status(status),
{
}

/// The health check passes exactly when the container properties request
/// succeeds; a failure names the container exactly when it is `404`.
pub proof fn law_healthcheck(container_name: String, outcome: Result<(), Option<HttpStatus>>)
    ensures
        healthcheck_report(container_name, outcome) is Ok <==> outcome is Ok,
        healthcheck_report(container_name, outcome) matches Err(
            HealthcheckFailure::Status(HealthcheckError::UnknownContainer { container }),
        ) ==> container == container_name
            && outcome == Err::<(), Option<HttpStatus>>(Some(HttpStatus { code: 404, named: true })),
{
}

/// With proxies disabled every target is reached directly; with them enabled,
/// a target reached through proxies uses the configured ones.
pub proof fn law_proxy_route(proxy: ProxyConfig, target: Seq<char>)
    ensures
        !proxy.enabled ==> proxy_route_for(proxy, target) == ProxyRoute::Direct,
        proxy_route_for(proxy, target) matches ProxyRoute::Proxied { http, https }
            ==> proxy.enabled && http == proxy.http && https == proxy.https,
{
}

/// The decimal form of a number is made of digits only and is never empty.
pub proof fn law_decimal_is_digits(n: nat)
    ensures
        decimal(n).len() >= 1,
        forall|i: int| 0 <= i < decimal(n).len() ==> '0' <= #[trigger] decimal(n)[i] <= '9',
    decreases n,
{
    if n >= 10 {
        law_decimal_is_digits(n / 10);
        assert forall|i: int| 0 <= i < decimal(n).len() implies '0' <= #[trigger] decimal(n)[i] <= '9' by {
            if i < decimal(n / 10).len() {
                assert(decimal(n)[i] == decimal(n / 10)[i]);
            } else {
                assert(decimal(n)[i] == digit_char(n % 10));
            }
        }
    }
}

/// A request has one string to sign: however its headers and query parameters
/// were listed, sorting them leaves a single text.
pub proof fn law_string_to_sign_is_unique(
    request: SharedKeyRequest,
    account: Seq<char>,
    first: Seq<char>,
    second: Seq<char>,
)
    requires
        is_string_to_sign(request, account, first),
        is_string_to_sign(request, account, second),
    ensures
        first == second,
{
    let (h1, q1) = choose|h: Seq<(Seq<char>, Seq<char>)>, q: Seq<(Seq<char>, Seq<char>)>|
        sorted_arrangement(h, ms_headers(pairs_view(request.headers@)))
            && sorted_arrangement(q, pairs_view(request.query@))
            && first == shared_key_text(request, account, h, q);
    let (h2, q2) = choose|h: Seq<(Seq<char>, Seq<char>)>, q: Seq<(Seq<char>, Seq<char>)>|
        sorted_arrangement(h, ms_headers(pairs_view(request.headers@)))
            && sorted_arrangement(q, pairs_view(request.query@))
            && second == shared_key_text(request, account, h, q);
    lemma_sorted_pairs_unique(h1, h2);
    lemma_sorted_pairs_unique(q1, q2);
}

/// With no connection string, a configured authorization method is used
/// exactly as it was configured; a configured connection string becomes the
/// connection string method; neither or both is refused.
pub proof fn law_configured_method_used_as_is(
    authorization: AzureBlobSinkAuthorization,
    connection_string: String,
)
    ensures
        resolved_authorization(None, Some(authorization))
            == Ok::<AzureBlobSinkAuthorization, BuildError>(authorization),
        resolved_authorization(Some(connection_string), None)
            == Ok::<AzureBlobSinkAuthorization, BuildError>(
            AzureBlobSinkAuthorization::ConnectionString { connection_string },
        ),
        resolved_authorization(None, None)
            == Err::<AzureBlobSinkAuthorization, BuildError>(BuildError::MissingAuthorization),
        resolved_authorization(Some(connection_string), Some(authorization))
            == Err::<AzureBlobSinkAuthorization, BuildError>(BuildError::ConflictingAuthorization),
{
}

/// A user assigned managed identity is named by the configured id, as the kind
/// of id the identity type says.
pub proof fn law_user_assigned_identity_kind(id: String)
    ensures
        user_assigned_identity_of(ManagedIdentityType::ClientId, Some(id))
            == Ok::<Option<UserAssignedIdentity>, BuildError>(Some(UserAssignedIdentity::ClientId { id })),
        user_assigned_identity_of(ManagedIdentityType::ResourceId, Some(id))
            == Ok::<Option<UserAssignedIdentity>, BuildError>(Some(UserAssignedIdentity::ResourceId { id })),
        user_assigned_identity_of(ManagedIdentityType::ObjectId, Some(id))
            == Ok::<Option<UserAssignedIdentity>, BuildError>(Some(UserAssignedIdentity::ObjectId { id })),
        user_assigned_identity_of(ManagedIdentityType::ClientId, None)
            == Err::<Option<UserAssignedIdentity>, BuildError>(BuildError::MissingManagedIdentityId),
        user_assigned_identity_of(ManagedIdentityType::SystemAssigned, Some(id))
            == Ok::<Option<UserAssignedIdentity>, BuildError>(None),
{
}

/// A failure is retried exactly when its status is a server error (`5xx`, by
/// number) or the named `429 Too Many Requests`.
pub proof fn law_retry_exactly(status: Option<HttpStatus>)
    ensures
        retriable_status(status) <==> (status matches Some(s) && ((500 <= s.code && s.code < 600) || (s.named
            && s.code == 429))),
{
}

/// A target whose host, or `host:port` where the URL names a port, the
/// exclusion rules match is reached directly; with proxies enabled, any other
/// target goes through the configured proxies.
pub proof fn law_proxy_bypass(proxy: ProxyConfig, target: Seq<char>)
    ensures
        ({
            let host = match url_host(target) {
                Some(h) => h,
                None => Seq::<char>::empty(),
            };
            let matched = no_proxy_matches(texts(proxy.no_proxy@), host) || (match url_port(target) {
                Some(p) => no_proxy_matches(texts(proxy.no_proxy@), host + seq![':'] + decimal(p as nat)),
                None => false,
            });
            &&& matched ==> proxy_route_for(proxy, target) == ProxyRoute::Direct
            &&& !matched && proxy.enabled ==> proxy_route_for(proxy, target) == (ProxyRoute::Proxied {
                http: proxy.http,
                https: proxy.https,
            })
        }),
{
    reveal_strlit(":");
}

/// The outcome of deriving a client target from a connection string: a text
/// that is not a list of settings is an invalid connection string; one with
/// neither a blob endpoint nor an account name names no endpoint; a container
/// URL that does not parse is refused with the parser's message; else the
/// target is the parsed container URL.
pub proof fn law_connection_string_target_outcome(
    connection_string: Seq<char>,
    container_name: Seq<char>,
    result: Result<ClientTarget, BuildError>,
)
    requires
        connection_target_ok(connection_string, container_name, result),
    ensures
        read_connection_string(connection_string) is Err ==> result == Err::<ClientTarget, BuildError>(
            BuildError::InvalidConnectionString,
        ),
        read_connection_string(connection_string) matches Ok(f) ==> (f.blob_endpoint is None
            && f.account_name is None ==> result == Err::<ClientTarget, BuildError>(
            BuildError::MissingBlobEndpoint,
        )),
        read_connection_string(connection_string) matches Ok(f) ==> (container_url_of(f, container_name) matches Some(u)
            ==> (url_parse(u) is None ==> (result matches Err(BuildError::InvalidContainerUrl { detail })
            && detail@ == url_parse_error_text(u)))),
        read_connection_string(connection_string) matches Ok(f) ==> (container_url_of(f, container_name) matches Some(u)
            ==> (url_parse(u) matches Some(parsed) ==> (result matches Ok(t) && t.url@ == parsed))),
{
}

/// A segment `key=value` whose key holds no `=` reads as that key and value:
/// it is split at its first `=`, and the value keeps any later `=`.
pub proof fn law_key_value_splits_at_first_equals(key: Seq<char>, value: Seq<char>)
    requires
        !key.contains('='),
    ensures
        key_value(key + seq!['='] + value) == Some((key, value)),
    decreases value.len(),
{
    if value.len() == 0 {
        let seg = key + seq!['='];
        assert(seg.drop_last() =~= key);
        lemma_no_equals_no_setting(key);
    } else {
        law_key_value_splits_at_first_equals(key, value.drop_last());
        let seg = key + seq!['='] + value;
        assert(seg.drop_last() =~= key + seq!['='] + value.drop_last());
        assert(value.drop_last().push(value.last()) =~= value);
    }
}

/// A text without `=` is no setting.
proof fn lemma_no_equals_no_setting(text: Seq<char>)
    requires
        !text.contains('='),
    ensures
        key_value(text) is None,
    decreases text.len(),
{
    if text.len() > 0 {
        assert(text.drop_last().len() < text.len());
        assert forall|i: int| 0 <= i < text.drop_last().len() implies text.drop_last()[i] != '=' by {
            assert(text.drop_last()[i] == text[i]);
        }
        lemma_no_equals_no_setting(text.drop_last());
        assert(text[text.len() - 1] == text.last());
    }
}

/// Splitting at `;` separates what stands before a `;` from what stands after
/// it.
pub proof fn law_split_segments_at_separator(before: Seq<char>, after: Seq<char>)
    ensures
        split_segments(before + seq![';'] + after) == split_segments(before) + split_segments(after),
    decreases after.len(),
{
    let whole = before + seq![';'] + after;
    if after.len() == 0 {
        assert(whole.drop_last() =~= before);
        assert(split_segments(after) =~= seq![Seq::<char>::empty()]);
        assert(split_segments(before).push(Seq::<char>::empty()) =~= split_segments(before) + split_segments(after));
    } else {
        law_split_segments_at_separator(before, after.drop_last());
        assert(whole.drop_last() =~= before + seq![';'] + after.drop_last());
        crate::connection_string::lemma_split_segments_nonempty(after.drop_last());
        crate::connection_string::lemma_split_segments_nonempty(before);
        let a = split_segments(before);
        let b = split_segments(after.drop_last());
        if after.last() == ';' {
            assert((a + b).push(Seq::<char>::empty()) =~= a + b.push(Seq::<char>::empty()));
        } else {
            assert((a + b).update((a + b).len() - 1, (a + b).last().push(after.last())) =~= a + b.update(
                b.len() - 1,
                b.last().push(after.last()),
            ));
        }
    }
}

/// The setting name `DefaultEndpointsProtocol`, character by character.
pub open spec fn setting_protocol() -> Seq<char> {
    seq!['D', 'e', 'f', 'a', 'u', 'l', 't', 'E', 'n', 'd', 'p', 'o', 'i', 'n', 't', 's', 'P', 'r', 'o', 't', 'o', 'c', 'o', 'l']
}

/// The setting name `AccountName`, character by character.
pub open spec fn setting_account_name() -> Seq<char> {
    seq!['A', 'c', 'c', 'o', 'u', 'n', 't', 'N', 'a', 'm', 'e']
}

/// The setting name `AccountKey`, character by character.
pub open spec fn setting_account_key() -> Seq<char> {
    seq!['A', 'c', 'c', 'o', 'u', 'n', 't', 'K', 'e', 'y']
}

/// The setting name `EndpointSuffix`, character by character.
pub open spec fn setting_endpoint_suffix() -> Seq<char> {
    seq!['E', 'n', 'd', 'p', 'o', 'i', 'n', 't', 'S', 'u', 'f', 'f', 'i', 'x']
}

/// The setting name `BlobEndpoint`, character by character.
pub open spec fn setting_blob_endpoint() -> Seq<char> {
    seq!['B', 'l', 'o', 'b', 'E', 'n', 'd', 'p', 'o', 'i', 'n', 't']
}

/// The setting name `SharedAccessSignature`, character by character.
pub open spec fn setting_shared_access_signature() -> Seq<char> {
    seq!['S', 'h', 'a', 'r', 'e', 'd', 'A', 'c', 'c', 'e', 's', 's', 'S', 'i', 'g', 'n', 'a', 't', 'u', 'r', 'e']
}

/// Each setting name of a connection string sets its own field, and the value
/// is taken as it stands; the other fields are kept.
pub proof fn law_connection_string_setting_names(f: ConnectionFields, value: Seq<char>)
    ensures
        apply_setting(f, setting_protocol(), value) == (ConnectionFields { protocol: Some(value), ..f }),
        apply_setting(f, setting_account_name(), value) == (ConnectionFields { account_name: Some(value), ..f }),
        apply_setting(f, setting_account_key(), value) == (ConnectionFields { account_key: Some(value), ..f }),
        apply_setting(f, setting_endpoint_suffix(), value) == (ConnectionFields { endpoint_suffix: Some(value), ..f }),
        apply_setting(f, setting_blob_endpoint(), value) == (ConnectionFields { blob_endpoint: Some(value), ..f }),
        apply_setting(f, setting_shared_access_signature(), value) == (ConnectionFields { shared_access_signature: Some(value), ..f }),
{
    reveal_strlit("DefaultEndpointsProtocol");
    reveal_strlit("AccountName");
    reveal_strlit("AccountKey");
    reveal_strlit("EndpointSuffix");
    reveal_strlit("BlobEndpoint");
    reveal_strlit("SharedAccessSignature");
    assert(setting_protocol() =~= "DefaultEndpointsProtocol"@);
    assert(setting_account_name() =~= "AccountName"@);
    assert(setting_account_key() =~= "AccountKey"@);
    assert(setting_endpoint_suffix() =~= "EndpointSuffix"@);
    assert(setting_blob_endpoint() =~= "BlobEndpoint"@);
    assert(setting_shared_access_signature() =~= "SharedAccessSignature"@);
}

/// The `Authorization` header of the scheme is `SharedKey`, a space, the
/// account name, `:` and the signature.
pub proof fn law_shared_key_authorization_form(account: Seq<char>, signature: Seq<char>)
    ensures
        crate::shared_key::shared_key_authorization(account, signature)
            == seq!['S', 'h', 'a', 'r', 'e', 'd', 'K', 'e', 'y', ' '] + account + seq![':'] + signature,
{
    reveal_strlit("SharedKey ");
    assert(crate::shared_key::shared_key_authorization(account, signature)
        =~= seq!['S', 'h', 'a', 'r', 'e', 'd', 'K', 'e', 'y', ' '] + account + seq![':'] + signature);
}

/// Only the named `403 Forbidden` is reported as refused credentials and only
/// the named `404 Not Found` as a missing container; every other status is
/// reported by its number, and a failure without a status as such.
pub proof fn law_healthcheck_classification(container_name: String, outcome: Result<(), Option<HttpStatus>>)
    ensures
        (healthcheck_report(container_name, outcome) == Err::<(), HealthcheckFailure>(
            HealthcheckFailure::Status(HealthcheckError::InvalidCredentials),
        )) <==> outcome == Err::<(), Option<HttpStatus>>(Some(HttpStatus { code: 403, named: true })),
        outcome == Err::<(), Option<HttpStatus>>(Some(HttpStatus { code: 404, named: true }))
            ==> healthcheck_report(container_name, outcome) == Err::<(), HealthcheckFailure>(
            HealthcheckFailure::Status(HealthcheckError::UnknownContainer { container: container_name }),
        ),
        match outcome {
            Err(Some(s)) => !(s.named && (s.code == 403 || s.code == 404))
                ==> healthcheck_report(container_name, outcome) == Err::<(), HealthcheckFailure>(
                HealthcheckFailure::Status(HealthcheckError::Unknown { status: s.code }),
            ),
            _ => true,
        },
        outcome == Err::<(), Option<HttpStatus>>(None) ==> healthcheck_report(container_name, outcome)
            == Err::<(), HealthcheckFailure>(HealthcheckFailure::MissingStatus),
{
}

/// Without a blob endpoint, the container URL is
/// `<protocol>://<account>.blob.<suffix>/<container>` followed by the shared
/// access signature query: the configured protocol (`https` when unset), the
/// configured endpoint suffix verbatim (`core.windows.net` when unset), and the
/// signature after one `?` (a leading `?` of its own is dropped).
pub proof fn law_container_url_from_account(f: ConnectionFields, account: Seq<char>, container: Seq<char>)
    requires
        f.blob_endpoint is None,
        f.account_name == Some(account),
    ensures
        container_url_of(f, container) == Some(
            (match f.protocol {
                Some(p) => p,
                None => seq!['h', 't', 't', 'p', 's'],
            }) + seq![':', '/', '/'] + account + seq!['.', 'b', 'l', 'o', 'b', '.'] + (match f.endpoint_suffix {
                Some(x) => x,
                None => seq!['c', 'o', 'r', 'e', '.', 'w', 'i', 'n', 'd', 'o', 'w', 's', '.', 'n', 'e', 't'],
            }) + seq!['/'] + container + (match f.shared_access_signature {
                Some(q) => seq!['?'] + (if q.len() > 0 && q[0] == '?' { q.subrange(1, q.len() as int) } else { q }),
                None => Seq::<char>::empty(),
            }),
        ),
{
    reveal_strlit("https");
    reveal_strlit("core.windows.net");
    reveal_strlit("://");
    reveal_strlit(".blob.");
    reveal_strlit("/");
    reveal_strlit("?");
    if let Some(q) = f.shared_access_signature {
        if q.len() > 0 && q[0] == '?' {
            assert(q.drop_first() =~= q.subrange(1, q.len() as int));
        }
    }
    let expected = (match f.protocol {
        Some(p) => p,
        None => seq!['h', 't', 't', 'p', 's'],
    }) + seq![':', '/', '/'] + account + seq!['.', 'b', 'l', 'o', 'b', '.'] + (match f.endpoint_suffix {
        Some(x) => x,
        None => seq!['c', 'o', 'r', 'e', '.', 'w', 'i', 'n', 'd', 'o', 'w', 's', '.', 'n', 'e', 't'],
    }) + seq!['/'] + container + (match f.shared_access_signature {
        Some(q) => seq!['?'] + (if q.len() > 0 && q[0] == '?' { q.subrange(1, q.len() as int) } else { q }),
        None => Seq::<char>::empty(),
    });
    assert(container_url_of(f, container)->Some_0 =~= expected);
}

/// With a blob endpoint, the container URL is that endpoint (without one
/// trailing `/`), `/`, the container, and the shared access signature query;
/// the account name and endpoint suffix play no part.
pub proof fn law_container_url_from_blob_endpoint(f: ConnectionFields, endpoint: Seq<char>, container: Seq<char>)
    requires
        f.blob_endpoint == Some(endpoint),
    ensures
        container_url_of(f, container) == Some(
            (if endpoint.len() > 0 && endpoint[endpoint.len() - 1] == '/' {
                endpoint.subrange(0, endpoint.len() - 1)
            } else {
                endpoint
            }) + seq!['/'] + container + (match f.shared_access_signature {
                Some(q) => seq!['?'] + (if q.len() > 0 && q[0] == '?' { q.subrange(1, q.len() as int) } else { q }),
                None => Seq::<char>::empty(),
            }),
        ),
{
    reveal_strlit("/");
    reveal_strlit("?");
    if endpoint.len() > 0 && endpoint[endpoint.len() - 1] == '/' {
        assert(endpoint.drop_last() =~= endpoint.subrange(0, endpoint.len() - 1));
    }
    if let Some(q) = f.shared_access_signature {
        if q.len() > 0 && q[0] == '?' {
            assert(q.drop_first() =~= q.subrange(1, q.len() as int));
        }
    }
    let expected = (if endpoint.len() > 0 && endpoint[endpoint.len() - 1] == '/' {
        endpoint.subrange(0, endpoint.len() - 1)
    } else {
        endpoint
    }) + seq!['/'] + container + (match f.shared_access_signature {
        Some(q) => seq!['?'] + (if q.len() > 0 && q[0] == '?' { q.subrange(1, q.len() as int) } else { q }),
        None => Seq::<char>::empty(),
    });
    assert(container_url_of(f, container)->Some_0 =~= expected);
}

/// A client target made from a connection string signs its requests with the
/// account's shared key exactly when the string carries an account name and key
/// and no shared access signature, whatever its endpoint: the policy holds that
/// name and key and the API version `2025-11-05`. It agrees with the
/// authentication the connection string is read as.
pub proof fn law_connection_string_shared_key(
    connection_string: Seq<char>,
    container_name: Seq<char>,
    fields: ConnectionFields,
    target: ClientTarget,
)
    requires
        read_connection_string(connection_string) == Ok::<ConnectionFields, Seq<char>>(fields),
        connection_target_ok(connection_string, container_name, Ok(target)),
    ensures
        (fields.shared_access_signature is None && fields.account_name is Some && fields.account_key is Some)
            ==> (target.shared_key matches Some(p) && p.account_name@ == fields.account_name->Some_0
            && p.account_key@ == fields.account_key->Some_0 && p.api_version@ == seq![
            '2', '0', '2', '5', '-', '1', '1', '-', '0', '5',
        ]),
        !(fields.shared_access_signature is None && fields.account_name is Some && fields.account_key is Some)
            ==> target.shared_key is None,
        forall|auth: ConnectionStringAuth| #[trigger] auth_of(fields, auth)
            ==> ((auth is SharedKey) <==> target.shared_key is Some),
        !target.token_credential,
{
    reveal_strlit("2025-11-05");
}

/// The line-break character, as a text.
pub open spec fn line_break() -> Seq<char> {
    seq!['\n']
}

/// The standard lines of the SharedKey scheme for a request, written out in the
/// scheme's order: method, `Content-Encoding`, `Content-Language`,
/// `Content-Length` (empty for an empty body or an unknown length),
/// `Content-MD5`, `Content-Type`, `Date` (empty), `If-Modified-Since`,
/// `If-Match`, `If-None-Match`, `If-Unmodified-Since` and `Range`, each ended by
/// a line break.
pub open spec fn scheme_standard_lines(r: SharedKeyRequest) -> Seq<char> {
    r.method@ + line_break() + r.content_encoding@ + line_break() + r.content_language@ + line_break()
        + (match r.content_length {
        Some(n) => if n == 0 { Seq::<char>::empty() } else { decimal(n as nat) },
        None => Seq::<char>::empty(),
    }) + line_break() + r.content_md5@ + line_break() + r.content_type@ + line_break() + line_break()
        + r.if_modified_since@ + line_break() + r.if_match@ + line_break() + r.if_none_match@
        + line_break() + r.if_unmodified_since@ + line_break() + r.range@ + line_break()
}

proof fn lemma_string_to_sign_parts(request: SharedKeyRequest, account: Seq<char>, text: Seq<char>) -> (parts: (
    Seq<(Seq<char>, Seq<char>)>,
    Seq<(Seq<char>, Seq<char>)>,
))
    requires
        is_string_to_sign(request, account, text),
    ensures
        sorted_arrangement(parts.0, ms_headers(pairs_view(request.headers@))),
        sorted_arrangement(parts.1, pairs_view(request.query@)),
        text == scheme_standard_lines(request) + (crate::shared_key::canonical_headers(parts.0)
            + seq!['/'] + account + request.path@ + crate::shared_key::canonical_query(parts.1)),
{
    let (h, q) = choose|h: Seq<(Seq<char>, Seq<char>)>, q: Seq<(Seq<char>, Seq<char>)>|
        sorted_arrangement(h, ms_headers(pairs_view(request.headers@)))
            && sorted_arrangement(q, pairs_view(request.query@))
            && text == shared_key_text(request, account, h, q);
    assert(text =~= scheme_standard_lines(request) + (crate::shared_key::canonical_headers(h)
        + seq!['/'] + account + request.path@ + crate::shared_key::canonical_query(q)));
    (h, q)
}

/// Every string to sign begins with the scheme's standard lines, in the
/// scheme's order.
pub proof fn law_string_to_sign_starts_with_standard_lines(
    request: SharedKeyRequest,
    account: Seq<char>,
    text: Seq<char>,
)
    requires
        is_string_to_sign(request, account, text),
    ensures
        scheme_standard_lines(request).len() <= text.len(),
        text.subrange(0, scheme_standard_lines(request).len() as int) == scheme_standard_lines(request),
{
    let parts = lemma_string_to_sign_parts(request, account, text);
    let lines = scheme_standard_lines(request);
    assert(text.subrange(0, lines.len() as int) =~= lines);
}

/// A request without headers and query parameters signs its standard lines
/// followed by `/<account><path>`, and nothing else.
pub proof fn law_string_to_sign_of_plain_request(request: SharedKeyRequest, account: Seq<char>, text: Seq<char>)
    requires
        is_string_to_sign(request, account, text),
        request.headers@.len() == 0,
        request.query@.len() == 0,
    ensures
        text == scheme_standard_lines(request) + seq!['/'] + account + request.path@,
{
    broadcast use vstd::seq_lib::to_multiset_len;

    let (h, q) = lemma_string_to_sign_parts(request, account, text);
    assert(pairs_view(request.headers@) =~= Seq::<(Seq<char>, Seq<char>)>::empty());
    assert(pairs_view(request.query@) =~= Seq::<(Seq<char>, Seq<char>)>::empty());
    assert(h.len() == h.to_multiset().len());
    assert(q.len() == q.to_multiset().len());
    assert(Seq::<(Seq<char>, Seq<char>)>::empty().to_multiset().len() == 0);
    assert(h =~= Seq::<(Seq<char>, Seq<char>)>::empty());
    assert(q =~= Seq::<(Seq<char>, Seq<char>)>::empty());
    assert(text =~= scheme_standard_lines(request) + seq!['/'] + account + request.path@);
}

/// A request whose only header is one `x-ms-` header and which has no query
/// parameters signs its standard lines, `name:value` and a line break, then
/// `/<account><path>`; any header that is not `x-ms-` is left out.
pub proof fn law_string_to_sign_of_one_service_header(
    request: SharedKeyRequest,
    account: Seq<char>,
    text: Seq<char>,
)
    requires
        is_string_to_sign(request, account, text),
        request.headers@.len() == 1,
        request.query@.len() == 0,
    ensures
        ({
            let name = request.headers@[0].0@;
            let value = request.headers@[0].1@;
            &&& name.len() >= 5 && name.subrange(0, 5) == seq!['x', '-', 'm', 's', '-'] ==> text
                == scheme_standard_lines(request) + name + seq![':'] + value + line_break() + seq!['/'] + account
                + request.path@
            &&& !(name.len() >= 5 && name.subrange(0, 5) == seq!['x', '-', 'm', 's', '-']) ==> text
                == scheme_standard_lines(request) + seq!['/'] + account + request.path@
        }),
{
    broadcast use vstd::seq_lib::to_multiset_len, vstd::seq_lib::to_multiset_contains;

    let (h, q) = lemma_string_to_sign_parts(request, account, text);
    let name = request.headers@[0].0@;
    let value = request.headers@[0].1@;
    let pv = pairs_view(request.headers@);
    assert(pv =~= seq![(name, value)]);
    assert(pv.drop_last() =~= Seq::<(Seq<char>, Seq<char>)>::empty());
    assert(ms_headers(pv.drop_last()) =~= Seq::<(Seq<char>, Seq<char>)>::empty());
    assert(pv.last() == (name, value));
    assert(pairs_view(request.query@) =~= Seq::<(Seq<char>, Seq<char>)>::empty());
    assert(q.len() == q.to_multiset().len());
    assert(Seq::<(Seq<char>, Seq<char>)>::empty().to_multiset().len() == 0);
    assert(q =~= Seq::<(Seq<char>, Seq<char>)>::empty());
    let prefix = seq!['x', '-', 'm', 's', '-'];
    if name.len() >= 5 && name.subrange(0, 5) == prefix {
        assert(name[0] == name.subrange(0, 5)[0]);
        assert(name[1] == name.subrange(0, 5)[1]);
        assert(name[2] == name.subrange(0, 5)[2]);
        assert(name[3] == name.subrange(0, 5)[3]);
        assert(name[4] == name.subrange(0, 5)[4]);
        assert(crate::shared_key::is_ms_header(name));
        let found = ms_headers(pv);
        assert(found =~= seq![(name, value)]);
        assert(h.len() == h.to_multiset().len());
        assert(found.len() == found.to_multiset().len());
        assert(found.contains((name, value)));
        assert(found.to_multiset().count((name, value)) > 0);
        assert(h.contains((name, value)));
        assert(h =~= seq![(name, value)]);
        assert(h.drop_last() =~= Seq::<(Seq<char>, Seq<char>)>::empty());
        assert(crate::shared_key::canonical_headers(h.drop_last()) =~= Seq::<char>::empty());
        assert(crate::shared_key::canonical_headers(h) =~= name + seq![':'] + value + line_break());
        assert(crate::shared_key::canonical_query(q) =~= Seq::<char>::empty());
        assert(text =~= scheme_standard_lines(request) + name + seq![':'] + value + line_break() + seq!['/']
            + account + request.path@);
    } else {
        if name.len() >= 5 && name[0] == 'x' && name[1] == '-' && name[2] == 'm' && name[3] == 's'
            && name[4] == '-' {
            assert(name.subrange(0, 5) =~= prefix);
        }
        assert(!crate::shared_key::is_ms_header(name));
        assert(ms_headers(pv) =~= Seq::<(Seq<char>, Seq<char>)>::empty());
        assert(h.len() == h.to_multiset().len());
        assert(h =~= Seq::<(Seq<char>, Seq<char>)>::empty());
        assert(text =~= scheme_standard_lines(request) + seq!['/'] + account + request.path@);
    }
}

/// A request without headers and with one query parameter signs its standard
/// lines, `/<account><path>`, a line break and `name:value`.
pub proof fn law_string_to_sign_of_one_query_parameter(
    request: SharedKeyRequest,
    account: Seq<char>,
    text: Seq<char>,
)
    requires
        is_string_to_sign(request, account, text),
        request.headers@.len() == 0,
        request.query@.len() == 1,
    ensures
        text == scheme_standard_lines(request) + seq!['/'] + account + request.path@ + line_break()
            + request.query@[0].0@ + seq![':'] + request.query@[0].1@,
{
    broadcast use vstd::seq_lib::to_multiset_len, vstd::seq_lib::to_multiset_contains;

    let (h, q) = lemma_string_to_sign_parts(request, account, text);
    let name = request.query@[0].0@;
    let value = request.query@[0].1@;
    assert(pairs_view(request.headers@) =~= Seq::<(Seq<char>, Seq<char>)>::empty());
    assert(Seq::<(Seq<char>, Seq<char>)>::empty().to_multiset().len() == 0);
    assert(h =~= Seq::<(Seq<char>, Seq<char>)>::empty());
    let pv = pairs_view(request.query@);
    assert(pv =~= seq![(name, value)]);
    assert(pv[0] == (name, value));
    assert(pv.contains((name, value)));
    assert(pv.to_multiset().count((name, value)) > 0);
    assert(q.len() == q.to_multiset().len());
    assert(pv.len() == pv.to_multiset().len());
    assert(q.contains((name, value)));
    assert(q =~= seq![(name, value)]);
    assert(q.drop_last() =~= Seq::<(Seq<char>, Seq<char>)>::empty());
    assert(crate::shared_key::canonical_query(q.drop_last()) =~= Seq::<char>::empty());
    assert(crate::shared_key::canonical_query(q) =~= line_break() + name + seq![':'] + value);
    assert(crate::shared_key::canonical_headers(h) =~= Seq::<char>::empty());
    assert(text =~= scheme_standard_lines(request) + seq!['/'] + account + request.path@ + line_break() + name
        + seq![':'] + value);
}

/// A text comes before every text it is a prefix of.
pub proof fn law_prefix_comes_first(a: Seq<char>, b: Seq<char>)
    requires
        a.len() <= b.len(),
        a == b.subrange(0, a.len() as int),
    ensures
        crate::sorting::text_le(a, b),
    decreases a.len(),
{
    if a.len() > 0 {
        assert(a[0] == b.subrange(0, a.len() as int)[0]);
        assert(a.drop_first() =~= b.drop_first().subrange(0, a.drop_first().len() as int));
        law_prefix_comes_first(a.drop_first(), b.drop_first());
    }
}

/// Of two texts that agree up to some position and differ there, the one with
/// the smaller character at that position comes first, and strictly so.
pub proof fn law_first_difference_decides(a: Seq<char>, b: Seq<char>, k: int)
    requires
        0 <= k < a.len(),
        k < b.len(),
        a.subrange(0, k) == b.subrange(0, k),
        (a[k] as int) < (b[k] as int),
    ensures
        crate::sorting::text_le(a, b),
        !crate::sorting::text_le(b, a),
    decreases k,
{
    if k > 0 {
        assert(a[0] == a.subrange(0, k)[0]);
        assert(b[0] == b.subrange(0, k)[0]);
        assert(a.drop_first().subrange(0, k - 1) =~= a.subrange(0, k).drop_first());
        assert(b.drop_first().subrange(0, k - 1) =~= b.subrange(0, k).drop_first());
        assert(a.drop_first()[k - 1] == a[k]);
        assert(b.drop_first()[k - 1] == b[k]);
        law_first_difference_decides(a.drop_first(), b.drop_first(), k - 1);
    } else {
        assert(a[0] != b[0]);
    }
}

} // verus!
