//! User identity and credentials: password hashing and verification,
//! session tokens, the public projection of a user record, and the
//! association of an avatar image with a user.

pub mod config;
pub mod credential;
pub mod digest;
pub mod files;
pub mod identifier;
pub mod time;
pub mod user;
