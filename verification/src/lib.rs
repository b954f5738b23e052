//! Credential verification and lifecycle for Alibaba Cloud access keys.
//!
//! The crate classifies the answers of the remote identity check, keeps the
//! validated access key pair in a single slot of a key/value store, and holds
//! the client built from the last pair that was known to be valid.

pub mod commands;
pub mod services;
pub mod storage;
pub mod text;
pub mod types;
