//! Verified core of an image-ingestion gallery service.
//!
//! A remote catalog page yields image descriptors; each image is downloaded
//! under a bounded permit pool while the byte stream is teed to a disk
//! writer and to a blocking decode bridge; the results are assembled into
//! metadata records, persisted, and read back through a paginated listing.
//! The modules here hold the decisions and data shapes of that pipeline;
//! the network, the file system and the database sit outside, behind a few
//! narrow trusted calls.

pub mod api;
pub mod bridge;
pub mod encoding;
pub mod error;
pub mod gallery;
pub mod ingest;
pub mod scheduler;
pub mod wire;
