//! Protocol layer that exposes a remote, message-oriented file store as plain
//! chunked-upload / range-download file storage.
//!
//! The library holds the pure, verified core: the versioned reference and
//! token codec, the upload planning (start, chunk, finalize), the download
//! and range gateway, the reference-refresh decisions, and the reconnect
//! backoff policy. Network transport and HTTP plumbing stay outside; they
//! hand this library plain values and carry its decisions out.

pub mod backoff;
pub mod download;
pub mod proto;
pub mod shared;
pub mod upload;
