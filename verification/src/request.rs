use vstd::prelude::*;

verus! {

/// What a blob upload request carries about the events in it.
#[derive(Clone, Debug, PartialEq, Eq)]
pub struct AzureBlobMetadata {
    /// The blob key the events were partitioned under.
    pub partition_key: String,
    /// The number of events.
    pub count: usize,
    /// The estimated JSON size of the events, in bytes.
    pub byte_size: usize,
}

/// One blob upload.
#[derive(Clone, Debug, PartialEq, Eq)]
pub struct AzureBlobRequest {
    /// The encoded (and possibly compressed) blob contents.
    pub blob_data: Vec<u8>,
    /// The `Content-Encoding` of the blob, where it is compressed.
    pub content_encoding: Option<String>,
    /// The `Content-Type` of the blob.
    pub content_type: String,
    pub metadata: AzureBlobMetadata,
}

/// The answer to a blob upload.
#[derive(Clone, Debug, PartialEq, Eq)]
pub struct AzureBlobResponse {
    /// The number of bytes uploaded.
    pub byte_size: usize,
}

impl AzureBlobResponse {
    /// The number of bytes sent: always known for a blob upload.
    pub fn bytes_sent(&self) -> (sent: Option<usize>)
        ensures
            sent == Some(self.byte_size),
    {
        Some(self.byte_size)
    }
}

} // verus!
