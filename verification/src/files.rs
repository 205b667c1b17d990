//! Stored files, as far as a user record refers to them.

pub mod entities;
