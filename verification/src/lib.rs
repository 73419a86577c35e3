//! Verified core of a small file-sharing service: parsing of upload expiry
//! durations, generation of random file hashes, md5 text digests, and the
//! decisions that the HTTP handlers take (uploads, downloads, file pages,
//! cleanup of expired files).

pub mod digest;
pub mod error;
pub mod file;
pub mod handler;
pub mod misc;
pub mod model;
pub mod number;
pub mod text;
pub mod upload;
