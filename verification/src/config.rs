use vstd::prelude::*;
use crate::auth::AzureBlobSinkAuthorization;
use crate::client::{ClientPlan, build_client_plan, client_plan_ok};
use crate::error::BuildError;
use crate::proxy::ProxyConfig;

verus! {

/// The blob key prefix used when none is configured.
pub const DEFAULT_KEY_PREFIX: &'static str = "blob/%F/";

/// The timestamp format of blob keys used when none is configured: seconds
/// since the Unix epoch.
pub const DEFAULT_FILENAME_TIME_FORMAT: &'static str = "%s";

/// Whether a UUID is appended to blob keys when it is not configured.
pub const DEFAULT_FILENAME_APPEND_UUID: bool = true;

/// Request settings of the sink that differ from the general defaults.
#[derive(Clone, Copy, Debug)]
pub struct AzureBlobTowerRequestConfigDefaults;

impl AzureBlobTowerRequestConfigDefaults {
    /// The default request rate limit, in requests per time window.
    pub const RATE_LIMIT_NUM: u64 = 250;
}

/// How hard a compression algorithm works.
#[derive(Clone, Copy, Debug, PartialEq, Eq, Structural)]
pub enum CompressionLevel {
    /// The algorithm's default level.
    Default,
    /// The fastest level.
    Fast,
    /// The best compression.
    Best,
    /// An explicit level.
    Level { value: u32 },
}

/// How blobs are compressed; all algorithms use the default level unless
/// another is configured.
#[derive(Clone, Copy, Debug, PartialEq, Eq, Structural)]
pub enum Compression {
    Uncompressed,
    Gzip { level: CompressionLevel },
    Zlib { level: CompressionLevel },
    Zstd { level: CompressionLevel },
    Snappy,
}

impl Compression {
    /// Gzip at the default level: the sink's default compression.
    pub fn gzip_default() -> (compression: Compression)
        ensures
            compression == (Compression::Gzip { level: CompressionLevel::Default }),
    {
        Compression::Gzip { level: CompressionLevel::Default }
    }
}

/// How encoded events are separated within a blob.
#[derive(Clone, Copy, Debug, PartialEq, Eq, Structural)]
pub enum Framing {
    NewlineDelimited,
    CharacterDelimited { delimiter: u8 },
    LengthDelimited,
    Bytes,
}

/// How each event is serialized.
#[derive(Clone, Copy, Debug, PartialEq, Eq, Structural)]
pub enum Codec {
    Json,
    Text,
    Logfmt,
    RawMessage,
}

/// Event encoding: an optional framing and a codec.
#[derive(Clone, Copy, Debug, PartialEq, Eq, Structural)]
pub struct EncodingConfig {
    pub framing: Option<Framing>,
    pub codec: Codec,
}

/// End-to-end acknowledgement settings; unset follows the global setting.
#[derive(Clone, Copy, Debug, PartialEq, Eq, Structural)]
pub struct AcknowledgementsConfig {
    pub enabled: Option<bool>,
}

/// A blob key template, held as its source text (strftime specifiers and
/// `{{ field }}` references are rendered per event when keys are made).
#[derive(Clone, Debug, PartialEq, Eq)]
pub struct Template {
    source: String,
}

impl View for Template {
    type V = Seq<char>;

    closed spec fn view(&self) -> Seq<char> {
        self.source@
    }
}

impl Template {
    /// A template with the given source text.
    pub fn from_source(source: &str) -> (template: Template)
        ensures
            template@ == source@,
    {
        Template { source: String::from_str(source) }
    }

    /// The template's source text.
    pub fn source(&self) -> (source: &str)
        ensures
            source@ == self@,
    {
        self.source.as_str()
    }

    /// A copy of the template.
    pub fn duplicate(&self) -> (copy: Template)
        ensures
            copy@ == self@,
    {
        Template { source: self.source.clone() }
    }
}

/// The default blob key prefix: `blob/%F/`, a directory per day.
pub fn default_blob_prefix() -> (prefix: Template)
    ensures
        prefix@ == DEFAULT_KEY_PREFIX@,
{
    Template::from_source(DEFAULT_KEY_PREFIX)
}

/// Partitions events by the blob key prefix rendered for each of them.
#[derive(Clone, Debug, PartialEq, Eq)]
pub struct KeyPartitioner {
    /// The template rendered into the partition key.
    pub key_prefix_template: Template,
    /// The template of an id that further splits partitions, if any.
    pub id_key_template: Option<Template>,
}

/// How the blobs of a batch are named and where they go.
#[derive(Clone, Debug, PartialEq, Eq)]
pub struct BlobNamingOptions {
    pub container_name: String,
    /// strftime format of the key's time part; empty for none.
    pub blob_time_format: String,
    /// Whether a UUID v4 is appended to the key.
    pub blob_append_uuid: bool,
    /// How blobs are compressed.
    pub compression: Compression,
}

/// Configuration of the Azure Blob Storage sink.
#[derive(Clone, Debug, PartialEq, Eq)]
pub struct AzureBlobSinkConfig {
    /// The storage account connection string; exclusive with `authorization`.
    pub connection_string: Option<String>,
    /// The authorization method; exclusive with `connection_string`.
    pub authorization: Option<AzureBlobSinkAuthorization>,
    /// The storage account URL (its serialization), needed by every
    /// authorization method but a connection string.
    pub storage_account: Option<String>,
    /// The container name.
    pub container_name: String,
    /// Prefix of all blob keys; a trailing `/` is not added automatically.
    pub blob_prefix: Template,
    /// Timestamp format of the key's time part; `%s` when unset, none when empty.
    pub blob_time_format: Option<String>,
    /// Whether a UUID v4 is appended to keys; `true` when unset.
    pub blob_append_uuid: Option<bool>,
    /// Event encoding and framing.
    pub encoding: EncodingConfig,
    /// Blob compression; gzip at the default level unless configured.
    pub compression: Compression,
    /// End-to-end acknowledgements.
    pub acknowledgements: AcknowledgementsConfig,
}

/// The authorization a sink is built with: exactly one of a connection string
/// and an authorization method must be configured, and a connection string
/// becomes the connection string method.
pub open spec fn resolved_authorization(
    connection_string: Option<String>,
    authorization: Option<AzureBlobSinkAuthorization>,
) -> Result<AzureBlobSinkAuthorization, BuildError> {
    match (connection_string, authorization) {
        (None, None) => Err(BuildError::MissingAuthorization),
        (Some(_), Some(_)) => Err(BuildError::ConflictingAuthorization),
        (Some(cs), None) => Ok(AzureBlobSinkAuthorization::ConnectionString { connection_string: cs }),
        (None, Some(auth)) => Ok(auth),
    }
}

/// The naming of blobs a configuration calls for: the container, the time
/// format (`%s` when unset) and the UUID switch (on when unset).
pub open spec fn naming_options_of(config: AzureBlobSinkConfig, options: BlobNamingOptions) -> bool {
    &&& options.container_name == config.container_name
    &&& options.blob_time_format@ == match config.blob_time_format {
        Some(f) => f@,
        None => DEFAULT_FILENAME_TIME_FORMAT@,
    }
    &&& options.blob_append_uuid == match config.blob_append_uuid {
        Some(b) => b,
        None => DEFAULT_FILENAME_APPEND_UUID,
    }
    &&& options.compression == config.compression
}

/// The outcome of planning the sink's client: refused where the authorization
/// is (see `resolved_authorization`), else the plan for the resolved method,
/// the storage account and the container.
pub open spec fn config_plan_ok(config: AzureBlobSinkConfig, proxy: ProxyConfig, result: Result<ClientPlan, BuildError>) -> bool {
    match resolved_authorization(config.connection_string, config.authorization) {
        Err(e) => result == Err::<ClientPlan, BuildError>(e),
        Ok(auth) => client_plan_ok(auth, config.storage_account, config.container_name@, proxy, result),
    }
}

impl AzureBlobSinkConfig {
    /// The example configuration that documentation generation shows: container
    /// `logs`, the default prefix, seconds timestamps, UUIDs appended,
    /// newline-delimited JSON, gzip at the default level, and no credentials.
    pub fn generate_config() -> (config: AzureBlobSinkConfig)
        ensures
            config.connection_string is None,
            config.authorization is None,
            config.storage_account is None,
            config.container_name@ == "logs"@,
            config.blob_prefix@ == DEFAULT_KEY_PREFIX@,
            config.blob_time_format matches Some(f) && f@ == "%s"@,
            config.blob_append_uuid == Some(true),
            config.encoding == (EncodingConfig { framing: Some(Framing::NewlineDelimited), codec: Codec::Json }),
            config.compression == (Compression::Gzip { level: CompressionLevel::Default }),
            config.acknowledgements.enabled is None,
    {
        AzureBlobSinkConfig {
            connection_string: None,
            authorization: None,
            storage_account: None,
            container_name: String::from_str("logs"),
            blob_prefix: default_blob_prefix(),
            blob_time_format: Some(String::from_str("%s")),
            blob_append_uuid: Some(true),
            encoding: EncodingConfig { framing: Some(Framing::NewlineDelimited), codec: Codec::Json },
            compression: Compression::gzip_default(),
            acknowledgements: AcknowledgementsConfig { enabled: None },
        }
    }

    /// The authorization the sink is built with, or why there is none.
    pub fn resolve_authorization(&self) -> (auth: Result<AzureBlobSinkAuthorization, BuildError>)
        ensures
            auth == resolved_authorization(self.connection_string, self.authorization),
    {
        match (&self.connection_string, &self.authorization) {
            (None, None) => Err(BuildError::MissingAuthorization),
            (Some(_), Some(_)) => Err(BuildError::ConflictingAuthorization),
            (Some(cs), None) => Ok(AzureBlobSinkAuthorization::ConnectionString {
                connection_string: cs.clone(),
            }),
            (None, Some(auth)) => Ok(auth.duplicate()),
        }
    }

    /// How the sink names its blobs.
    pub fn naming_options(&self) -> (options: BlobNamingOptions)
        ensures
            naming_options_of(*self, options),
    {
        let blob_time_format = match &self.blob_time_format {
            Some(f) => f.clone(),
            None => String::from_str(DEFAULT_FILENAME_TIME_FORMAT),
        };
        let blob_append_uuid = match self.blob_append_uuid {
            Some(b) => b,
            None => DEFAULT_FILENAME_APPEND_UUID,
        };
        BlobNamingOptions {
            container_name: self.container_name.clone(),
            blob_time_format,
            blob_append_uuid,
            compression: self.compression,
        }
    }

    /// Plans the sink's container client: the resolved authorization method
    /// with the configured storage account and container.
    pub fn client_plan(&self, proxy: &ProxyConfig) -> (result: Result<ClientPlan, BuildError>)
        ensures
            config_plan_ok(*self, *proxy, result),
    {
        let auth = match self.resolve_authorization() {
            Ok(a) => a,
            Err(e) => {
                return Err(e);
            },
        };
        build_client_plan(&auth, &self.storage_account, self.container_name.as_str(), proxy)
    }

    /// The partitioner of events: by the rendered blob prefix, with no id key.
    pub fn key_partitioner(&self) -> (partitioner: Result<KeyPartitioner, BuildError>)
        ensures
            partitioner matches Ok(p) && p.key_prefix_template@ == self.blob_prefix@
                && p.id_key_template is None,
    {
        Ok(KeyPartitioner { key_prefix_template: self.blob_prefix.duplicate(), id_key_template: None })
    }
}

} // verus!
