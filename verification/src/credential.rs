//! The credential codec: passwords are stored as salted bcrypt hashes and
//! checked against them.

use bcrypt::BcryptError;
use vstd::prelude::*;
use vstd::utf8::is_ascii_chars;

verus! {

/// `bcrypt::BcryptError`, carried as an opaque value.
#[verifier::external_type_specification]
#[verifier::external_body]
pub struct ExBcryptError(bcrypt::BcryptError);

/// The fault of a hashing that could not run. It is an operational fault,
/// never the answer to a wrong password.
#[derive(Debug)]
pub struct CredentialError {
    /// What bcrypt reported.
    pub cause: BcryptError,
}

/// The smallest cost factor that bcrypt takes.
pub const MIN_COST: u32 = 4;

/// The largest cost factor that bcrypt takes.
pub const MAX_COST: u32 = 31;

/// The cost factor at which passwords are hashed unless another is asked
/// for.
pub const DEFAULT_COST: u32 = 12;

/// `cost` is a cost factor that bcrypt takes.
pub open spec fn cost_allowed(cost: u32) -> bool {
    MIN_COST <= cost <= MAX_COST
}

/// What `bcrypt::verify` makes of a password and a stored hash: `Some(b)`
/// where it answers `Ok(b)`, `None` where it answers with an error. The
/// algorithm is not restated here.
pub uninterp spec fn bcrypt_verdict(password: Seq<char>, hash: Seq<char>) -> Option<bool>;

/// `hash` has the outer shape of a bcrypt hash: 60 ASCII characters.
pub open spec fn hash_shaped(hash: Seq<char>) -> bool {
    hash.len() == 60 && is_ascii_chars(hash)
}

/// The cost factor that a bcrypt hash names: the two decimal digits after
/// its version.
pub open spec fn embedded_cost(hash: Seq<char>) -> int {
    10 * (hash[4] as u32 - '0' as u32) + (hash[5] as u32 - '0' as u32)
}

/// `hash` is shaped as a bcrypt hash made at `cost` is.
pub open spec fn hashed_at(hash: Seq<char>, cost: u32) -> bool {
    hash_shaped(hash) && embedded_cost(hash) == cost
}

/// The stored `hash` accepts `password`.
pub open spec fn accepts(password: Seq<char>, hash: Seq<char>) -> bool {
    granted(bcrypt_verdict(password, hash))
}

/// A verdict grants access only when it is a definite yes: a mismatch and
/// a hash that could not be read both refuse, so that no caller can tell
/// the two apart.
pub open spec fn granted(verdict: Option<bool>) -> bool {
    verdict == Some(true)
}

/// `bcrypt::verify`: its answer for a password and a hash depends on the
/// two alone. A hash that is not 60 ASCII characters long is answered
/// with an error.
#[verifier::external_body]
fn bcrypt_verify(password: &str, hash: &str) -> (verdict: Option<bool>)
    ensures
        verdict == bcrypt_verdict(password@, hash@),
        !hash_shaped(hash@) ==> verdict is None,
{
    bcrypt::verify(password, hash).ok()
}

/// `bcrypt::hash`: hashes under a random salt, so two calls need not agree.
/// Whatever salt was drawn, a hash that comes back was made at a cost that
/// bcrypt takes, is 60 ASCII characters long with the cost as the two
/// digits after the version, and `bcrypt::verify` answers `Ok(true)` for it
/// and the same password, because the hash carries its salt and cost.
#[verifier::external_body]
fn bcrypt_hash(password: &str, cost: u32) -> (outcome: Result<String, BcryptError>)
    ensures
        outcome matches Ok(hash) ==> cost_allowed(cost) && hashed_at(hash@, cost) && bcrypt_verdict(
            password@,
            hash@,
        ) == Some(true),
{
    bcrypt::hash(password, cost)
}

/// Decides `granted`.
pub fn is_granted(verdict: Option<bool>) -> (r: bool)
    ensures
        r == granted(verdict),
{
    match verdict {
        Some(answer) => answer,
        None => false,
    }
}

/// What a hashing hands to its caller: the hash as it came, or the fault
/// that bcrypt reported.
pub fn credential_from(outcome: Result<String, BcryptError>) -> (r: Result<String, CredentialError>)
    ensures
        match outcome {
            Ok(hash) => r == Ok::<String, CredentialError>(hash),
            Err(cause) => r == Err::<String, CredentialError>(CredentialError { cause }),
        },
{
    match outcome {
        Ok(hash) => Ok(hash),
        Err(cause) => Err(CredentialError { cause }),
    }
}

/// Hashes `password` at the cost factor `cost`. A hash that comes back
/// names `cost` and accepts `password`; none comes back at a cost that
/// bcrypt does not take. Whether hashing at an allowed cost succeeds is up
/// to the system's entropy source.
pub fn hash_password_with_cost(password: &str, cost: u32) -> (r: Result<String, CredentialError>)
    ensures
        r matches Ok(hash) ==> cost_allowed(cost) && hashed_at(hash@, cost) && accepts(
            password@,
            hash@,
        ),
        !cost_allowed(cost) ==> r is Err,
{
    credential_from(bcrypt_hash(password, cost))
}

/// Hashes `password` at the default cost. A hash that comes back names
/// that cost and accepts `password`.
pub fn hash_password(password: &str) -> (r: Result<String, CredentialError>)
    ensures
        r matches Ok(hash) ==> hashed_at(hash@, DEFAULT_COST) && accepts(password@, hash@),
{
    hash_password_with_cost(password, DEFAULT_COST)
}

/// Whether the stored `hash` accepts `password`. Never fails: a hash that
/// cannot be read accepts nothing.
pub fn verify_password(password: &str, hash: &str) -> (accepted: bool)
    ensures
        accepted == accepts(password@, hash@),
        !hash_shaped(hash@) ==> !accepted,
{
    is_granted(bcrypt_verify(password, hash))
}

/// Hashing then verifying: whatever hash `hash_password` returns for a
/// password, `verify_password` accepts that password against it. This
/// holds of every such hash, so of any two that two hashings of one
/// password return.
pub proof fn lemma_hashed_password_verifies(
    password: &str,
    hashed: Result<String, CredentialError>,
    hash: &str,
    accepted: bool,
)
    requires
        call_ensures(hash_password, (password,), hashed),
        hashed matches Ok(stored) && stored@ == hash@,
        call_ensures(verify_password, (password, hash), accepted),
    ensures
        accepted,
        accepts(password@, hash@),
{
}

} // verus!
