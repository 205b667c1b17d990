//! Values handed to the caller of a user operation.

use crate::digest::{digestible, is_hex_digest, sha256_hex, sha256_hex_digest};
use uuid::Uuid;
use vstd::prelude::*;

verus! {

/// A session token as it is issued: returned once to the caller, never
/// stored in this form.
pub struct RawToken {
    pub user_id: Uuid,
    pub token: String,
}

impl RawToken {
    /// An issued token is a digest: 64 lower-case hexadecimal digits.
    pub open spec fn well_formed(&self) -> bool {
        is_hex_digest(self.token@)
    }

    /// The token for `user_id` that the identifier text `nonce` gives: the
    /// digest of `nonce`, bound to the user. The same nonce gives the same
    /// token.
    pub fn derive(user_id: Uuid, nonce: &str) -> (raw: RawToken)
        requires
            digestible(nonce@),
        ensures
            raw.user_id == user_id,
            raw.token@ == sha256_hex(nonce@),
            raw.well_formed(),
    {
        RawToken { user_id, token: sha256_hex_digest(nonce) }
    }
}

} // verus!
