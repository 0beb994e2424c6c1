//! Transfer engine of an end-to-end-encrypted file store.
//!
//! Uploads arrive as independently encrypted chunks, possibly out of order,
//! and are reassembled into a container; downloads serve byte ranges of a
//! stored container and forget files that nobody reads any more. Everything
//! here is plain computation on plain values: the caller owns the files, the
//! sockets and the clock, and hands their results in.

pub mod constants;
pub mod formats;
pub mod errors;
pub mod upload_utils;
pub mod reassembly;
pub mod registry;
pub mod uploads_manager;
pub mod download_utils;
pub mod validation;
pub mod api;
pub mod storage;
pub mod util;
