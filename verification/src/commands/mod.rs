//! What the user interface can ask for.

pub mod auth;
