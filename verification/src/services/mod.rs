//! The services behind the user interface: credentials and the cloud client.

pub mod auth;
pub mod client;
pub mod error;
pub mod remote;
