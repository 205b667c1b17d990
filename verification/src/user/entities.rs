//! The user record, the view of it that may leave the system, and the
//! stored form of a session token.

use crate::config::AppConfig;
use crate::credential::{
    accepts, hash_password, hashed_at, verify_password, CredentialError, DEFAULT_COST,
};
use crate::digest::{digest_of, digestible, sha256_hex, sha256_hex_digest};
use crate::files::entities::AppFile;
use crate::identifier::{is_identifier_text, random_identifier_text};
use crate::time::Timestamp;
use crate::user::commands::RawToken;
use uuid::Uuid;
use vstd::prelude::*;
use vstd::utf8::is_ascii_chars_encode_utf8;

verus! {

/// The authoritative, private record of a user.
pub struct User {
    pub id: Uuid,
    pub username: String,
    /// The file that serves as avatar, if any; the file itself belongs to
    /// the file storage.
    pub avatar_id: Option<Uuid>,
    /// The display URL of the avatar, computed when the avatar was linked.
    pub avatar_url: Option<String>,
    pub questions_count: i32,
    pub answers_count: i32,
    pub thanks_count: i32,
    /// The salted one-way hash of the password; never the password itself.
    pub encrypted_password: String,
    pub created_at: Timestamp,
    /// Refreshed by the storage layer whenever the record is persisted.
    pub updated_at: Timestamp,
}

/// What may be shown of a user: every field of [`User`] but the credential.
pub struct PublicUser {
    pub id: Uuid,
    pub username: String,
    pub avatar_id: Option<Uuid>,
    pub avatar_url: Option<String>,
    pub questions_count: i32,
    pub answers_count: i32,
    pub thanks_count: i32,
    pub created_at: Timestamp,
    pub updated_at: Timestamp,
}

/// A session token as it is stored: the digest of the issued token, never
/// the issued token itself.
#[derive(PartialEq, Eq)]
pub struct UserToken {
    pub id: Uuid,
    /// The digest of the token that was issued.
    pub hashed_token: String,
    pub user_id: Uuid,
    pub created_at: Timestamp,
}

/// The mathematical content of a [`User`].
pub struct UserView {
    pub id: Uuid,
    pub username: Seq<char>,
    pub avatar_id: Option<Uuid>,
    pub avatar_url: Option<Seq<char>>,
    pub questions_count: int,
    pub answers_count: int,
    pub thanks_count: int,
    pub encrypted_password: Seq<char>,
    pub created_at: Timestamp,
    pub updated_at: Timestamp,
}

/// The mathematical content of a [`PublicUser`].
pub struct PublicUserView {
    pub id: Uuid,
    pub username: Seq<char>,
    pub avatar_id: Option<Uuid>,
    pub avatar_url: Option<Seq<char>>,
    pub questions_count: int,
    pub answers_count: int,
    pub thanks_count: int,
    pub created_at: Timestamp,
    pub updated_at: Timestamp,
}

/// The characters of an optional string.
pub open spec fn text_of(s: Option<String>) -> Option<Seq<char>> {
    match s {
        Some(s) => Some(s@),
        None => None,
    }
}

/// A copy of an optional string.
fn clone_text(s: &Option<String>) -> (copy: Option<String>)
    ensures
        copy == *s,
{
    match s {
        Some(s) => Some(s.clone()),
        None => None,
    }
}

impl Clone for User {
    fn clone(&self) -> (copy: User)
        ensures
            copy == *self,
    {
        User {
            id: self.id,
            username: self.username.clone(),
            avatar_id: self.avatar_id,
            avatar_url: clone_text(&self.avatar_url),
            questions_count: self.questions_count,
            answers_count: self.answers_count,
            thanks_count: self.thanks_count,
            encrypted_password: self.encrypted_password.clone(),
            created_at: self.created_at,
            updated_at: self.updated_at,
        }
    }
}

impl Clone for PublicUser {
    fn clone(&self) -> (copy: PublicUser)
        ensures
            copy == *self,
    {
        PublicUser {
            id: self.id,
            username: self.username.clone(),
            avatar_id: self.avatar_id,
            avatar_url: clone_text(&self.avatar_url),
            questions_count: self.questions_count,
            answers_count: self.answers_count,
            thanks_count: self.thanks_count,
            created_at: self.created_at,
            updated_at: self.updated_at,
        }
    }
}

impl View for User {
    type V = UserView;

    open spec fn view(&self) -> UserView {
        UserView {
            id: self.id,
            username: self.username@,
            avatar_id: self.avatar_id,
            avatar_url: text_of(self.avatar_url),
            questions_count: self.questions_count as int,
            answers_count: self.answers_count as int,
            thanks_count: self.thanks_count as int,
            encrypted_password: self.encrypted_password@,
            created_at: self.created_at,
            updated_at: self.updated_at,
        }
    }
}

impl View for PublicUser {
    type V = PublicUserView;

    open spec fn view(&self) -> PublicUserView {
        PublicUserView {
            id: self.id,
            username: self.username@,
            avatar_id: self.avatar_id,
            avatar_url: text_of(self.avatar_url),
            questions_count: self.questions_count as int,
            answers_count: self.answers_count as int,
            thanks_count: self.thanks_count as int,
            created_at: self.created_at,
            updated_at: self.updated_at,
        }
    }
}

impl UserView {
    /// The invariant of a user record: no counter is negative, the record
    /// was not updated before it was created, and it has an avatar URL,
    /// which is not empty, exactly when it has an avatar.
    pub open spec fn well_formed(self) -> bool {
        &&& self.questions_count >= 0
        &&& self.answers_count >= 0
        &&& self.thanks_count >= 0
        &&& self.updated_at.not_before(self.created_at)
        &&& (self.avatar_id is Some <==> self.avatar_url is Some)
        &&& (self.avatar_url matches Some(url) ==> url.len() > 0)
    }

    /// The stored credential accepts `password`.
    pub open spec fn accepts_password(self, password: Seq<char>) -> bool {
        accepts(password, self.encrypted_password)
    }

    /// The record with `hash` as its credential.
    pub open spec fn with_credential(self, hash: Seq<char>) -> UserView {
        UserView { encrypted_password: hash, ..self }
    }

    /// The record with the file `id`, shown at `url`, as its avatar.
    pub open spec fn with_avatar(self, id: Uuid, url: Seq<char>) -> UserView {
        UserView { avatar_id: Some(id), avatar_url: Some(url), ..self }
    }

    /// The record with no avatar.
    pub open spec fn without_avatar(self) -> UserView {
        UserView { avatar_id: None, avatar_url: None, ..self }
    }

    /// The public projection: every field but the credential.
    pub open spec fn public(self) -> PublicUserView {
        PublicUserView {
            id: self.id,
            username: self.username,
            avatar_id: self.avatar_id,
            avatar_url: self.avatar_url,
            questions_count: self.questions_count,
            answers_count: self.answers_count,
            thanks_count: self.thanks_count,
            created_at: self.created_at,
            updated_at: self.updated_at,
        }
    }
}

impl UserToken {
    /// `presented` is the token that this record stores the digest of.
    pub open spec fn accepts(&self, presented: Seq<char>) -> bool {
        digestible(presented) && self.hashed_token@ == sha256_hex(presented)
    }

    /// The record under which the issued token `raw` is stored: it keeps
    /// the digest of the issued token and the user the token is bound to.
    /// The record accepts the token it was made from.
    pub fn from_raw(id: Uuid, raw: &RawToken, created_at: Timestamp) -> (record: UserToken)
        requires
            digestible(raw.token@),
        ensures
            record.id == id,
            record.user_id == raw.user_id,
            record.created_at == created_at,
            record.hashed_token@ == sha256_hex(raw.token@),
            record.accepts(raw.token@),
    {
        UserToken {
            id,
            hashed_token: sha256_hex_digest(raw.token.as_str()),
            user_id: raw.user_id,
            created_at,
        }
    }

    /// The user that `presented` authenticates against this record: the
    /// record's user when the digest of `presented` is the stored one, and
    /// nobody otherwise. A text too long to be digested is no token.
    pub fn authenticate(&self, presented: &str) -> (user: Option<Uuid>)
        ensures
            user == if self.accepts(presented@) {
                Some(self.user_id)
            } else {
                None
            },
    {
        match digest_of(presented) {
            Some(digest) => if self.hashed_token == digest {
                Some(self.user_id)
            } else {
                None
            },
            None => None,
        }
    }
}

impl User {
    /// Issues a fresh session token for this user: the digest of a newly
    /// drawn random identifier, bound to the user's id.
    pub fn make_token(&self) -> (raw: RawToken)
        ensures
            raw.user_id == self.id,
            raw.well_formed(),
            exists|nonce: Seq<char>|
                is_identifier_text(nonce) && raw.token@ == #[trigger] sha256_hex(nonce),
    {
        let nonce = random_identifier_text();
        proof {
            is_ascii_chars_encode_utf8(nonce@);
        }
        RawToken::derive(self.id, nonce.as_str())
    }

    /// Whether `password` is the password of this user. Never fails: a
    /// wrong password and a stored hash that cannot be read both give
    /// `false`.
    pub fn check_password(&self, password: &str) -> (accepted: bool)
        ensures
            accepted == self@.accepts_password(password@),
    {
        verify_password(password, self.encrypted_password.as_str())
    }

    /// Puts the outcome of a hashing into the record: a hash replaces the
    /// credential and nothing else, a fault leaves the record as it was and
    /// is handed on.
    pub fn store_credential(&mut self, hashed: Result<String, CredentialError>) -> (r: Result<
        (),
        CredentialError,
    >)
        ensures
            match hashed {
                Ok(hash) => r is Ok && *final(self) == (User {
                    encrypted_password: hash,
                    ..*old(self)
                }),
                Err(fault) => r == Err::<(), CredentialError>(fault) && *final(self) == *old(self),
            },
    {
        match hashed {
            Ok(hash) => {
                self.encrypted_password = hash;
                Ok(())
            },
            Err(fault) => Err(fault),
        }
    }

    /// Makes `password` the password of this user. On success the record
    /// holds a new hash, made at the default cost, which accepts
    /// `password`, and is otherwise as before; on a fault the record is as
    /// before.
    pub fn change_password(&mut self, password: &str) -> (r: Result<(), CredentialError>)
        ensures
            r is Ok ==> final(self)@ == old(self)@.with_credential(final(self).encrypted_password@)
                && hashed_at(final(self).encrypted_password@, DEFAULT_COST)
                && final(self)@.accepts_password(password@),
            r is Err ==> *final(self) == *old(self),
            old(self)@.well_formed() ==> final(self)@.well_formed(),
    {
        self.store_credential(hash_password(password))
    }

    /// Decides the invariant of the record.
    pub fn is_well_formed(&self) -> (r: bool)
        ensures
            r == self@.well_formed(),
    {
        let avatar_consistent = match (&self.avatar_id, &self.avatar_url) {
            (Some(_), Some(url)) => !url.as_str().is_empty(),
            (None, None) => true,
            _ => false,
        };
        self.questions_count >= 0 && self.answers_count >= 0 && self.thanks_count >= 0
            && self.updated_at.is_not_before(&self.created_at) && avatar_consistent
    }

    /// Links `file` as the avatar of this user, or removes the avatar when
    /// `file` is `None`. With a file, the record holds the file's
    /// identifier and its display URL under `config`; without one, neither.
    /// No other field changes.
    pub fn set_avatar_icon(&mut self, config: &AppConfig, file: Option<AppFile>)
        ensures
            file matches Some(f) ==> final(self)@ == old(self)@.with_avatar(f.id, f.url(config)),
            file is None ==> final(self)@ == old(self)@.without_avatar(),
            old(self)@.well_formed() ==> final(self)@.well_formed(),
    {
        self.avatar_id =
        match &file {
            Some(file) => Some(file.id),
            None => None,
        };
        self.avatar_url =
        match file {
            Some(file) => Some(file.get_url(config)),
            None => None,
        };
    }
}

impl From<User> for PublicUser {
    /// Projects a user record to its public view. Total; the credential is
    /// dropped, every other field is carried over.
    fn from(user: User) -> (public: PublicUser)
        ensures
            public@ == user@.public(),
    {
        PublicUser {
            id: user.id,
            username: user.username,
            avatar_id: user.avatar_id,
            avatar_url: user.avatar_url,
            questions_count: user.questions_count,
            answers_count: user.answers_count,
            thanks_count: user.thanks_count,
            created_at: user.created_at,
            updated_at: user.updated_at,
        }
    }
}

impl vstd::std_specs::convert::FromSpecImpl<User> for PublicUser {
    open spec fn obeys_from_spec() -> bool {
        true
    }

    open spec fn from_spec(user: User) -> PublicUser {
        PublicUser {
            id: user.id,
            username: user.username,
            avatar_id: user.avatar_id,
            avatar_url: user.avatar_url,
            questions_count: user.questions_count,
            answers_count: user.answers_count,
            thanks_count: user.thanks_count,
            created_at: user.created_at,
            updated_at: user.updated_at,
        }
    }
}

/// A stored token authenticates its user: the record made from an issued
/// token gives the token's user to whoever presents that token.
pub proof fn lemma_stored_token_authenticates(
    id: Uuid,
    raw: &RawToken,
    created_at: Timestamp,
    record: UserToken,
    presented: &str,
    user: Option<Uuid>,
)
    requires
        digestible(raw.token@),
        call_ensures(UserToken::from_raw, (id, raw, created_at), record),
        presented@ == raw.token@,
        call_ensures(UserToken::authenticate, (&record, presented), user),
    ensures
        user == Some(raw.user_id),
{
}

/// The public projection does not depend on the credential: whatever hash
/// a record holds, its projection is the same.
pub proof fn lemma_projection_hides_credential(user: UserView, credential: Seq<char>)
    ensures
        (UserView { encrypted_password: credential, ..user }).public() == user.public(),
{
}

} // verus!
