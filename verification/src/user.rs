//! Users: the private record, its public projection, and session tokens.

pub mod commands;
pub mod entities;
