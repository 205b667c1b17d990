//! The configuration that the operations of this crate read.

use vstd::prelude::*;

verus! {

/// The active configuration: an immutable value, validated by whoever
/// loaded it.
pub struct AppConfig {
    /// The prefix under which stored files are served: a base path or the
    /// address of a CDN, without a trailing slash.
    pub files_base_url: String,
}

impl Clone for AppConfig {
    fn clone(&self) -> (copy: AppConfig)
        ensures
            copy == *self,
    {
        AppConfig { files_base_url: self.files_base_url.clone() }
    }
}

} // verus!
