//! Object storage for media blobs behind an S3-compatible service.
//!
//! [`storage::MediaStorage`] is the client. Its operations decide and do no
//! I/O: each is a value that says which request to send to the service, and
//! that turns the service's reply into the result for the caller.

pub mod bucket_index;
pub mod client;
pub mod config;
pub mod error;
pub mod operations;
pub mod sidecar;
pub mod storage;
pub mod stream;
pub mod tenant;
