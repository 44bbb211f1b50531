use azure_blob_sink::auth::{
    user_assigned_identity, AzureBlobSinkAuthorization, CredentialRoute, ManagedIdentityType,
    UserAssignedIdentity,
};
use azure_blob_sink::client::{account_target, build_client_plan, plan_client, process_connection_string};
use azure_blob_sink::config::{
    default_blob_prefix, AcknowledgementsConfig, AzureBlobSinkConfig,
    AzureBlobTowerRequestConfigDefaults, Codec, Compression, CompressionLevel, EncodingConfig, Framing,
    Template,
};
use azure_blob_sink::connection_string::{ConnectionStringAuth, ParsedConnectionString};
use azure_blob_sink::error::BuildError;
use azure_blob_sink::health::{healthcheck_outcome, HealthcheckError, HealthcheckFailure};
use azure_blob_sink::proxy::{ProxyConfig, ProxyRoute};
use azure_blob_sink::request::AzureBlobResponse;
use azure_blob_sink::retry::AzureBlobRetryLogic;
use azure_blob_sink::shared_key::{
    authorization_header, is_ms_header_name, ms_headers_of, string_to_sign, SharedKeyRequest,
};
use azure_blob_sink::sorting::{sort_pairs, text_le_of};
use azure_blob_sink::status::{http_status_of, HttpStatus};
use azure_blob_sink::text::{decimal_string, format_host_port};

const ACCOUNT: &str = "https://my-dce-5kyl.eastus-1.storage.azure.com";
const CONNECTION_STRING: &str = "DefaultEndpointsProtocol=https;AccountName=my-dce-5kyl;AccountKey=your_account_key;EndpointSuffix=core.windows.net";

fn default_config() -> AzureBlobSinkConfig {
    AzureBlobSinkConfig {
        connection_string: None,
        authorization: None,
        storage_account: None,
        container_name: String::new(),
        blob_prefix: Template::from_source(""),
        blob_time_format: None,
        blob_append_uuid: None,
        encoding: EncodingConfig { framing: None, codec: Codec::Text },
        compression: Compression::gzip_default(),
        acknowledgements: AcknowledgementsConfig { enabled: None },
    }
}

fn proxy(enabled: bool, no_proxy: &[&str]) -> ProxyConfig {
    ProxyConfig {
        enabled,
        http: Some("http://proxy.local:3128".to_string()),
        https: Some("http://secure-proxy.local:3129".to_string()),
        no_proxy: no_proxy.iter().map(|rule| rule.to_string()).collect(),
    }
}

fn named(code: u16) -> Option<HttpStatus> {
    Some(HttpStatus { code, named: true })
}

fn status_error(status: azure_core::http::StatusCode) -> azure_core::Error {
    azure_core::Error::from(azure_core::error::ErrorKind::HttpResponse {
        status,
        error_code: None,
        raw_response: None,
    })
}

fn http_error(status: u16) -> azure_core::Error {
    status_error(azure_core::http::StatusCode::from(status))
}

fn unnamed_error(status: u16) -> azure_core::Error {
    status_error(azure_core::http::StatusCode::UnknownValue(status))
}

#[test]
fn generate_config() {
    let config = AzureBlobSinkConfig::generate_config();
    assert_eq!(config.connection_string, None);
    assert_eq!(config.authorization, None);
    assert_eq!(config.storage_account, None);
    assert_eq!(config.container_name, "logs");
    assert_eq!(config.blob_prefix.source(), "blob/%F/");
    assert_eq!(config.blob_time_format, Some("%s".to_string()));
    assert_eq!(config.blob_append_uuid, Some(true));
    assert_eq!(
        config.encoding,
        EncodingConfig { framing: Some(Framing::NewlineDelimited), codec: Codec::Json }
    );
    assert_eq!(config.compression, Compression::Gzip { level: CompressionLevel::Default });
    assert_eq!(config.acknowledgements.enabled, None);
    // The example names no credentials, so it cannot be built as it stands.
    assert_eq!(config.resolve_authorization(), Err(BuildError::MissingAuthorization));
}

#[test]
fn default_prefix_is_daily_directory() {
    assert_eq!(default_blob_prefix().source(), "blob/%F/");
    assert_eq!(AzureBlobTowerRequestConfigDefaults::RATE_LIMIT_NUM, 250);
}

#[test]
fn key_partitioner_uses_prefix_verbatim() {
    let config = AzureBlobSinkConfig { blob_prefix: Template::from_source("blob"), ..default_config() };
    let partitioner = config.key_partitioner().unwrap();
    assert_eq!(partitioner.key_prefix_template.source(), "blob");
    assert!(partitioner.id_key_template.is_none());
}

#[test]
fn naming_defaults_and_overrides() {
    let options = default_config().naming_options();
    assert_eq!(options.blob_time_format, "%s");
    assert!(options.blob_append_uuid);
    assert_eq!(options.compression, Compression::gzip_default());

    let config = AzureBlobSinkConfig {
        container_name: "logs".to_string(),
        blob_time_format: Some(String::new()),
        blob_append_uuid: Some(false),
        compression: Compression::Uncompressed,
        ..default_config()
    };
    let options = config.naming_options();
    assert_eq!(options.compression, Compression::Uncompressed);
    assert_eq!(options.container_name, "logs");
    assert_eq!(options.blob_time_format, "");
    assert!(!options.blob_append_uuid);
}

#[test]
fn authorization_requires_exactly_one_source() {
    assert_eq!(default_config().resolve_authorization(), Err(BuildError::MissingAuthorization));

    let both = AzureBlobSinkConfig {
        connection_string: Some(CONNECTION_STRING.to_string()),
        authorization: Some(AzureBlobSinkAuthorization::DeveloperToolsCredential),
        ..default_config()
    };
    assert_eq!(both.resolve_authorization(), Err(BuildError::ConflictingAuthorization));

    let only_string = AzureBlobSinkConfig {
        connection_string: Some(CONNECTION_STRING.to_string()),
        ..default_config()
    };
    assert_eq!(
        only_string.resolve_authorization(),
        Ok(AzureBlobSinkAuthorization::ConnectionString {
            connection_string: CONNECTION_STRING.to_string()
        })
    );

    let only_method = AzureBlobSinkConfig {
        authorization: Some(AzureBlobSinkAuthorization::ManagedIdentityCredential {
            managed_identity_type: ManagedIdentityType::SystemAssigned,
            managed_identity_id: Some("01-23456789-0123-4567-8901-234567890123".to_string()),
        }),
        ..default_config()
    };
    assert_eq!(only_method.resolve_authorization(), Ok(only_method.authorization.clone().unwrap()));
}

#[test]
fn build_error_messages() {
    assert_eq!(
        BuildError::MissingAuthorization.message(),
        "Either a connection string or an authorization method must be provided"
    );
    assert_eq!(
        BuildError::ConflictingAuthorization.message(),
        "Both connection string and authorization method cannot be provided at the same time"
    );
    assert_eq!(
        BuildError::MissingStorageAccount.message(),
        "Storage account must be provided when using managed identity authentication"
    );
    assert_eq!(
        BuildError::InvalidAccountUrl.message(),
        "Invalid account URL: missing path segments for container name"
    );
    assert_eq!(
        BuildError::MissingManagedIdentityId.message(),
        "A managed identity id must be provided for a user assigned managed identity"
    );
    assert_eq!(
        BuildError::InvalidConnectionString.message(),
        "Invalid connection string: a segment is not of the form Key=Value"
    );
    assert_eq!(
        BuildError::MissingBlobEndpoint.message(),
        "Failed to build container URL: the connection string names neither BlobEndpoint nor AccountName"
    );
    assert_eq!(
        BuildError::InvalidContainerUrl { detail: "relative URL without a base".to_string() }.message(),
        "Invalid container URL: relative URL without a base"
    );
}

#[test]
fn developer_tools_credential_route() {
    let auth = AzureBlobSinkAuthorization::DeveloperToolsCredential;
    assert_eq!(auth.credential_route(), CredentialRoute::TokenCredential { authorization: auth.clone() });
    let target = account_target(&Some(format!("{ACCOUNT}/")), "test-container").unwrap();
    assert_eq!(target.url, "https://my-dce-5kyl.eastus-1.storage.azure.com/test-container");
    assert!(target.token_credential);
    assert_eq!(target.shared_key, None);
}

#[test]
fn account_target_errors() {
    assert_eq!(account_target(&None, "logs"), Err(BuildError::MissingStorageAccount));
    assert_eq!(
        account_target(&Some("mailto:me@example.com".to_string()), "logs"),
        Err(BuildError::InvalidAccountUrl)
    );
}

#[test]
fn connection_string_credential_route() {
    let auth = AzureBlobSinkAuthorization::ConnectionString {
        connection_string: CONNECTION_STRING.to_string(),
    };
    // A connection string yields no token credential.
    assert_eq!(
        auth.credential_route(),
        CredentialRoute::ConnectionString { connection_string: CONNECTION_STRING.to_string() }
    );
    let target = process_connection_string(CONNECTION_STRING, "test-container").unwrap();
    assert_eq!(target.url, "https://my-dce-5kyl.blob.core.windows.net/test-container");
    assert!(!target.token_credential);
    let key = target.shared_key.unwrap();
    assert_eq!(key.account_name, "my-dce-5kyl");
    assert_eq!(key.account_key, "your_account_key");
    assert_eq!(key.api_version, "2025-11-05");
}

#[test]
fn connection_string_parsing() {
    let parsed = ParsedConnectionString::parse(
        "DefaultEndpointsProtocol=https;AccountName=mylogstorage;AccountKey=storageaccountkeybase64encoded;EndpointSuffix=core.windows.net",
    )
    .unwrap();
    assert_eq!(parsed.default_endpoints_protocol.as_deref(), Some("https"));
    assert_eq!(parsed.account_name.as_deref(), Some("mylogstorage"));
    assert_eq!(parsed.account_key.as_deref(), Some("storageaccountkeybase64encoded"));
    assert_eq!(parsed.endpoint_suffix.as_deref(), Some("core.windows.net"));
    assert_eq!(parsed.blob_endpoint, None);
    assert_eq!(
        parsed.container_url("logs").as_deref(),
        Some("https://mylogstorage.blob.core.windows.net/logs")
    );
    assert_eq!(
        parsed.auth(),
        ConnectionStringAuth::SharedKey {
            account_name: "mylogstorage".to_string(),
            account_key: "storageaccountkeybase64encoded".to_string()
        }
    );

    // Trailing separators, a value holding `=`, a later setting replacing an earlier one.
    let parsed = ParsedConnectionString::parse(
        "AccountName=first;AccountName=second;AccountKey=abc==;DefaultEndpointsProtocol=http;;",
    )
    .unwrap();
    assert_eq!(parsed.account_name.as_deref(), Some("second"));
    assert_eq!(parsed.account_key.as_deref(), Some("abc=="));
    assert_eq!(parsed.container_url("c").as_deref(), Some("http://second.blob.core.windows.net/c"));

    match ParsedConnectionString::parse("AccountName=a;NotASetting") {
        Err(azure_blob_sink::connection_string::ConnectionStringError::MalformedSegment { segment }) => {
            assert_eq!(segment, "NotASetting")
        }
        other => panic!("unexpected {other:?}"),
    }
    let empty = ParsedConnectionString::parse("").unwrap();
    assert_eq!(empty.container_url("logs"), None);
    assert_eq!(empty.auth(), ConnectionStringAuth::Anonymous);
}

#[test]
fn connection_string_with_sas() {
    let cs = "BlobEndpoint=https://mylogstorage.blob.core.windows.net/;SharedAccessSignature=generatedsastoken";
    let parsed = ParsedConnectionString::parse(cs).unwrap();
    assert_eq!(
        parsed.container_url("logs").as_deref(),
        Some("https://mylogstorage.blob.core.windows.net/logs?generatedsastoken")
    );
    assert_eq!(parsed.auth(), ConnectionStringAuth::Sas);
    let target = process_connection_string(cs, "logs").unwrap();
    assert_eq!(target.url, "https://mylogstorage.blob.core.windows.net/logs?generatedsastoken");
    assert_eq!(target.shared_key, None);
    assert!(!target.token_credential);

    let leading = ParsedConnectionString::parse("BlobEndpoint=https://a.example;SharedAccessSignature=?sv=1&sig=x").unwrap();
    assert_eq!(leading.container_url("c").as_deref(), Some("https://a.example/c?sv=1&sig=x"));
}

#[test]
fn connection_string_errors() {
    assert_eq!(process_connection_string("AccountName", "logs"), Err(BuildError::InvalidConnectionString));
    assert_eq!(process_connection_string("Foo=bar", "logs"), Err(BuildError::MissingBlobEndpoint));
    assert_eq!(
        process_connection_string("BlobEndpoint=not a url", "logs"),
        Err(BuildError::InvalidContainerUrl { detail: "relative URL without a base".to_string() })
    );
}

fn identity_methods() -> Vec<AzureBlobSinkAuthorization> {
    vec![
        AzureBlobSinkAuthorization::DeveloperToolsCredential,
        AzureBlobSinkAuthorization::AzureCliCredential {
            tenant_id: "01-23456789-0123-4567-8901-234567890123".to_string(),
            subscription: "01-23456789-0123-4567-8901-234567890123".to_string(),
        },
        AzureBlobSinkAuthorization::AzureDeveloperCliCredential {
            tenant_id: Some("01-23456789-0123-4567-8901-234567890123".to_string()),
        },
        AzureBlobSinkAuthorization::AzurePipelinesCredential {
            service_connection_id: "01-23456789-0123-4567-89012341234".to_string(),
            tenant_id: "23456789-0123-4567-8901-234567890123".to_string(),
            subscription_id: "23456789-0123-4567-8901-234567890123".to_string(),
            system_access_token: "fake_token".to_string(),
        },
        AzureBlobSinkAuthorization::WorkloadIdentityCredential {
            tenant_id: "23456789-0123-4567-8901-234567890123".to_string(),
            client_id: "23456789-0123-4567-8901-234567890123".to_string(),
            subscription_id: "23456789-0123-4567-8901-234567890123".to_string(),
            system_access_token: "fake_token".to_string(),
        },
        AzureBlobSinkAuthorization::ManagedIdentityCredential {
            managed_identity_type: ManagedIdentityType::SystemAssigned,
            managed_identity_id: Some("01-23456789-0123-4567-8901-234567890123".to_string()),
        },
        AzureBlobSinkAuthorization::ClientAssertionCredential {
            tenant_id: "01-23456789-0123-4567-8901-234567890123".to_string(),
            client_id: "01-23456789-0123-4567-8901-234567890123".to_string(),
            subscription_id: "01-23456789-0123-4567-8901-234567890123".to_string(),
        },
        AzureBlobSinkAuthorization::ClientCertificateCredential {
            tenant_id: "01-23456789-0123-4567-8901-234567890123".to_string(),
            client_id: "01-23456789-0123-4567-8901-234567890123".to_string(),
            certificate: "==== BEGIN CERTIFICATE====\nbase64encodedcertificate\n==== END CERTIFICATE====".to_string(),
            certificate_password: Some("fake_password".to_string()),
        },
        AzureBlobSinkAuthorization::ClientSecretCredential {
            tenant_id: "01-23456789-0123-4567-8901-234567890123".to_string(),
            client_id: "01-23456789-0123-4567-8901-234567890123".to_string(),
            client_secret: "fake_secret".to_string(),
        },
    ]
}

#[test]
fn identity_credentials_use_storage_account() {
    for method in identity_methods() {
        // Each is a valid configuration, with one authorization method ...
        let config = AzureBlobSinkConfig {
            authorization: Some(method.clone()),
            storage_account: Some(format!("{ACCOUNT}/")),
            container_name: "test-container".to_string(),
            ..default_config()
        };
        assert_eq!(config.resolve_authorization(), Ok(method.clone()));
        assert_eq!(method.duplicate(), method);
        // ... that authenticates with its own token credential against the account.
        assert_eq!(method.credential_route(), CredentialRoute::TokenCredential { authorization: method.clone() });
        let plan = config.client_plan(&proxy(false, &[])).unwrap();
        assert_eq!(plan.target.url, "https://my-dce-5kyl.eastus-1.storage.azure.com/test-container");
        assert!(plan.target.token_credential);
        assert_eq!(plan.target.shared_key, None);
        // Without the storage account no client is planned.
        let no_account = AzureBlobSinkConfig { storage_account: None, ..config };
        assert_eq!(no_account.client_plan(&proxy(false, &[])), Err(BuildError::MissingStorageAccount));
    }
}

#[test]
fn managed_identity_selection() {
    assert_eq!(user_assigned_identity(ManagedIdentityType::SystemAssigned, &Some("x".to_string())), Ok(None));
    assert_eq!(user_assigned_identity(ManagedIdentityType::SystemAssigned, &None), Ok(None));
    assert_eq!(
        user_assigned_identity(ManagedIdentityType::ClientId, &Some("id".to_string())),
        Ok(Some(UserAssignedIdentity::ClientId { id: "id".to_string() }))
    );
    assert_eq!(
        user_assigned_identity(ManagedIdentityType::ResourceId, &Some("id".to_string())),
        Ok(Some(UserAssignedIdentity::ResourceId { id: "id".to_string() }))
    );
    assert_eq!(
        user_assigned_identity(ManagedIdentityType::ObjectId, &Some("id".to_string())),
        Ok(Some(UserAssignedIdentity::ObjectId { id: "id".to_string() }))
    );
    assert_eq!(
        user_assigned_identity(ManagedIdentityType::ClientId, &None),
        Err(BuildError::MissingManagedIdentityId)
    );
}

#[test]
fn connection_string_plan_ignores_storage_account() {
    let auth = AzureBlobSinkAuthorization::ConnectionString { connection_string: CONNECTION_STRING.to_string() };
    let with_account = build_client_plan(&auth, &Some(format!("{ACCOUNT}/")), "logs", &proxy(true, &[])).unwrap();
    let without_account = build_client_plan(&auth, &None, "logs", &proxy(true, &[])).unwrap();
    assert_eq!(with_account, without_account);
    assert_eq!(with_account.target.url, "https://my-dce-5kyl.blob.core.windows.net/logs");
    assert_eq!(with_account.application_id, "VectorAzureBlobSink");
}

#[test]
fn config_plan_fails_on_authorization_first() {
    let both = AzureBlobSinkConfig {
        connection_string: Some(CONNECTION_STRING.to_string()),
        authorization: Some(AzureBlobSinkAuthorization::DeveloperToolsCredential),
        ..default_config()
    };
    assert_eq!(both.client_plan(&proxy(true, &[])), Err(BuildError::ConflictingAuthorization));
    assert_eq!(default_config().client_plan(&proxy(true, &[])), Err(BuildError::MissingAuthorization));
    let bad = AzureBlobSinkConfig { connection_string: Some("broken".to_string()), ..default_config() };
    assert_eq!(bad.client_plan(&proxy(true, &[])), Err(BuildError::InvalidConnectionString));
}

#[test]
fn retry_policy_by_status() {
    let logic = AzureBlobRetryLogic;
    assert!(logic.is_retriable_status(named(500)));
    assert!(logic.is_retriable_status(named(503)));
    assert!(logic.is_retriable_status(named(599)));
    assert!(logic.is_retriable_status(named(429)));
    assert!(!logic.is_retriable_status(named(404)));
    assert!(!logic.is_retriable_status(named(600)));
    assert!(!logic.is_retriable_status(named(200)));
    assert!(!logic.is_retriable_status(None));
    assert!(logic.is_retriable_status(Some(HttpStatus { code: 503, named: false })));
    assert!(!logic.is_retriable_status(Some(HttpStatus { code: 429, named: false })));
}

#[test]
fn retry_policy_on_errors() {
    let logic = AzureBlobRetryLogic;
    assert!(logic.is_retriable_error(&http_error(503)));
    assert!(logic.is_retriable_error(&http_error(429)));
    assert!(!logic.is_retriable_error(&http_error(403)));
    let connection = azure_core::Error::from(azure_core::error::ErrorKind::Connection);
    assert!(!logic.is_retriable_error(&connection));
    assert!(logic.is_retriable_error(&unnamed_error(599)));
    assert!(!logic.is_retriable_error(&unnamed_error(429)));
}

#[test]
fn status_read_from_errors() {
    assert_eq!(http_status_of(&http_error(404)), named(404));
    assert_eq!(http_status_of(&http_error(503)), named(503));
    assert_eq!(http_status_of(&unnamed_error(429)), Some(HttpStatus { code: 429, named: false }));
    assert_eq!(http_status_of(&unnamed_error(799)), Some(HttpStatus { code: 799, named: false }));
    assert_eq!(http_status_of(&azure_core::Error::from(azure_core::error::ErrorKind::Io)), None);
}

#[test]
fn healthcheck_outcomes() {
    assert_eq!(healthcheck_outcome("logs".to_string(), Ok(())), Ok(()));
    assert_eq!(
        healthcheck_outcome("logs".to_string(), Err(named(403))),
        Err(HealthcheckFailure::Status(HealthcheckError::InvalidCredentials))
    );
    assert_eq!(
        healthcheck_outcome("logs".to_string(), Err(named(404))),
        Err(HealthcheckFailure::Status(HealthcheckError::UnknownContainer {
            container: "logs".to_string()
        }))
    );
    assert_eq!(
        healthcheck_outcome("logs".to_string(), Err(named(500))),
        Err(HealthcheckFailure::Status(HealthcheckError::Unknown { status: 500 }))
    );
    assert_eq!(healthcheck_outcome("logs".to_string(), Err(None)), Err(HealthcheckFailure::MissingStatus));
    assert_eq!(
        healthcheck_outcome("logs".to_string(), Err(Some(HttpStatus { code: 403, named: false }))),
        Err(HealthcheckFailure::Status(HealthcheckError::Unknown { status: 403 }))
    );
    assert_eq!(
        healthcheck_outcome("logs".to_string(), Err(Some(HttpStatus { code: 404, named: false }))),
        Err(HealthcheckFailure::Status(HealthcheckError::Unknown { status: 404 }))
    );
}

#[test]
fn healthcheck_messages() {
    assert_eq!(HealthcheckError::InvalidCredentials.message(), "Invalid connection string specified");
    assert_eq!(
        HealthcheckError::UnknownContainer { container: "logs".to_string() }.message(),
        "Container: \"logs\" not found"
    );
    assert_eq!(HealthcheckError::Unknown { status: 502 }.message(), "Unknown status code: 502");
    assert_eq!(HealthcheckFailure::MissingStatus.message(), "unknown status code");
}

#[test]
fn decimal_formatting() {
    assert_eq!(decimal_string(0), "0");
    assert_eq!(decimal_string(7), "7");
    assert_eq!(decimal_string(10), "10");
    assert_eq!(decimal_string(443), "443");
    assert_eq!(decimal_string(65535), "65535");
    assert_eq!(decimal_string(18446744073709551615), "18446744073709551615");
    assert_eq!(format_host_port("localhost", 10000), "localhost:10000");
}

#[test]
fn proxy_routes() {
    let target = "https://mylogstorage.blob.core.windows.net/logs";
    let proxied = ProxyRoute::Proxied {
        http: Some("http://proxy.local:3128".to_string()),
        https: Some("http://secure-proxy.local:3129".to_string()),
    };
    assert_eq!(proxy(true, &[]).route_for(target), proxied);
    assert_eq!(proxy(false, &[]).route_for(target), ProxyRoute::Direct);
    assert_eq!(proxy(true, &["*"]).route_for(target), ProxyRoute::Direct);
    assert_eq!(proxy(true, &[".core.windows.net"]).route_for(target), ProxyRoute::Direct);
    assert_eq!(proxy(true, &["windows.net"]).route_for(target), ProxyRoute::Direct);
    assert_eq!(proxy(true, &["example.com"]).route_for(target), proxied);
    assert_eq!(proxy(true, &["example.com", "windows.net"]).route_for(target), ProxyRoute::Direct);
    assert_eq!(proxy(true, &[""]).route_for(target), proxied);
}

#[test]
fn proxy_bypass_by_host_and_port() {
    let target = "http://127.0.0.1:10000/devstoreaccount1/logs";
    assert_eq!(proxy(true, &["127.0.0.1:10000"]).route_for(target), ProxyRoute::Direct);
    assert_eq!(proxy(true, &["127.0.0.1"]).route_for(target), ProxyRoute::Direct);
    assert_ne!(proxy(true, &["127.0.0.1:9999"]).route_for(target), ProxyRoute::Direct);
}

#[test]
fn client_plan_options() {
    let target = account_target(&Some(format!("{ACCOUNT}/")), "logs").unwrap();
    let plan = plan_client(target.clone(), &proxy(false, &[]));
    assert_eq!(plan.target, target);
    assert_eq!(plan.application_id, "VectorAzureBlobSink");
    assert_eq!(plan.proxy, ProxyRoute::Direct);
}

#[test]
fn response_reports_bytes_sent() {
    assert_eq!(AzureBlobResponse { byte_size: 1234 }.bytes_sent(), Some(1234));
}

fn request_parts() -> SharedKeyRequest {
    SharedKeyRequest {
        method: "PUT".to_string(),
        content_encoding: String::new(),
        content_language: String::new(),
        content_length: Some(11),
        content_md5: String::new(),
        content_type: "text/plain".to_string(),
        if_modified_since: String::new(),
        if_match: String::new(),
        if_none_match: String::new(),
        if_unmodified_since: String::new(),
        range: String::new(),
        headers: vec![
            ("x-ms-version".to_string(), "2025-11-05".to_string()),
            ("content-type".to_string(), "text/plain".to_string()),
            ("x-ms-date".to_string(), "Mon, 01 Jan 2024 00:00:00 GMT".to_string()),
            ("x-ms-blob-type".to_string(), "BlockBlob".to_string()),
        ],
        path: "/logs/blob.log".to_string(),
        query: vec![("timeout".to_string(), "30".to_string()), ("comp".to_string(), "block".to_string())],
    }
}

#[test]
fn shared_key_string_to_sign() {
    let expected = "PUT\n\n\n11\n\ntext/plain\n\n\n\n\n\n\n\
x-ms-blob-type:BlockBlob\nx-ms-date:Mon, 01 Jan 2024 00:00:00 GMT\nx-ms-version:2025-11-05\n\
/myaccount/logs/blob.log\ncomp:block\ntimeout:30";
    assert_eq!(string_to_sign(&request_parts(), "myaccount"), expected);
}

#[test]
fn shared_key_string_to_sign_without_body() {
    let empty = SharedKeyRequest { content_length: Some(0), headers: vec![], query: vec![], ..request_parts() };
    let unknown = SharedKeyRequest { content_length: None, ..empty.clone() };
    let expected = "PUT\n\n\n\n\ntext/plain\n\n\n\n\n\n\n/acct/logs/blob.log";
    assert_eq!(string_to_sign(&empty, "acct"), expected);
    assert_eq!(string_to_sign(&unknown, "acct"), expected);
}

#[test]
fn shared_key_header_order_does_not_matter() {
    let mut reordered = request_parts();
    reordered.headers.reverse();
    reordered.query.reverse();
    assert_eq!(string_to_sign(&reordered, "myaccount"), string_to_sign(&request_parts(), "myaccount"));
}

#[test]
fn shared_key_authorization_header() {
    let key = "FFFFFFFFFFFFFFFFFFFFFFFFFFFFFFFFFFFFFFFFFFFFFFFFFFFFFFFFFFFFFFFF";
    assert_eq!(
        authorization_header("myaccount", key, "create hmac signature for data"),
        Some("SharedKey myaccount:D/y9XyIEdUzEbdV570h8dou/mfkbMA1lKCOPqPDPAd0=".to_string())
    );
    assert_eq!(authorization_header("myaccount", "not base64!", "data"), None);
}

#[test]
fn ms_header_selection() {
    assert!(is_ms_header_name("x-ms-date"));
    assert!(!is_ms_header_name("x-ms"));
    assert!(!is_ms_header_name("content-type"));
    let found = ms_headers_of(&request_parts().headers);
    let names: Vec<&str> = found.iter().map(|(name, _)| name.as_str()).collect();
    assert_eq!(names, vec!["x-ms-version", "x-ms-date", "x-ms-blob-type"]);
}

#[test]
fn pairs_sort_by_name_then_value() {
    let items = vec![
        ("b".to_string(), "2".to_string()),
        ("a".to_string(), "9".to_string()),
        ("b".to_string(), "1".to_string()),
        ("ab".to_string(), "0".to_string()),
    ];
    let sorted = sort_pairs(&items);
    let mut expected = items.clone();
    expected.sort();
    assert_eq!(sorted, expected);
    assert_eq!(sorted[0], ("a".to_string(), "9".to_string()));
    assert!(text_le_of("a", "ab"));
    assert!(!text_le_of("b", "ab"));
    assert!(text_le_of("", ""));
}
