//! Configuration of the media store.

use vstd::prelude::*;

verus! {

/// Settings of the media store.
#[derive(Clone, Debug)]
pub struct MediaConfig {
    /// URL of the S3-compatible endpoint.
    pub s3_endpoint: String,
    /// Static access key, or empty to use the AWS credential chain.
    pub s3_access_key: String,
    /// Static secret key, or empty to use the AWS credential chain.
    pub s3_secret_key: String,
    /// Name of the bucket.
    pub s3_bucket: String,
    /// Signing region.
    pub s3_region: String,
    /// Largest image accepted, in bytes.
    pub max_image_bytes: u64,
    /// Largest GIF accepted, in bytes.
    pub max_gif_bytes: u64,
    /// Largest video accepted, in bytes.
    pub max_video_bytes: u64,
    /// Largest other file accepted, in bytes.
    pub max_file_bytes: u64,
    /// Base URL that blobs are published under.
    pub public_base_url: String,
    /// Whether uploads are recorded.
    pub upload_records_enabled: bool,
    /// Request header that carries the uploader's address.
    pub upload_ip_header: Option<String>,
    /// Request header that carries the uploader's port.
    pub upload_port_header: Option<String>,
}

impl MediaConfig {
    /// Both static keys are set.
    pub open spec fn has_static_keys(&self) -> bool {
        self.s3_access_key@.len() > 0 && self.s3_secret_key@.len() > 0
    }

    /// Exactly one of the two static keys is set.
    pub open spec fn has_partial_keys(&self) -> bool {
        (self.s3_access_key@.len() > 0) != (self.s3_secret_key@.len() > 0)
    }
}

} // verus!
