//! Where stored files live.

pub mod file_store;
