use user_identity::digest::{digest_of, DIGEST_INPUT_LIMIT};
use user_identity::time::Timestamp;
use user_identity::user::commands::RawToken;
use user_identity::user::entities::{User, UserToken};
use uuid::Uuid;

fn user_with_id(id: Uuid) -> User {
    User {
        id,
        username: String::from("ada"),
        avatar_id: None,
        avatar_url: None,
        questions_count: 0,
        answers_count: 0,
        thanks_count: 0,
        encrypted_password: String::new(),
        created_at: Timestamp { seconds: 1_600_000_000, nanos: 0 },
        updated_at: Timestamp { seconds: 1_600_000_000, nanos: 0 },
    }
}

fn is_hex_digest(text: &str) -> bool {
    text.len() == 64 && text.chars().all(|c| matches!(c, '0'..='9' | 'a'..='f'))
}

#[test]
fn derived_token_is_the_digest_of_the_nonce() {
    let id = Uuid::from_u128(7);
    let raw = RawToken::derive(id, "abc");
    assert_eq!(raw.user_id, id);
    assert_eq!(raw.token, "ba7816bf8f01cfea414140de5dae2223b00361a396177a9cb410ff61f20015ad");
    let empty = RawToken::derive(id, "");
    assert_eq!(empty.token, "e3b0c44298fc1c149afbf4c8996fb92427ae41e4649b934ca495991b7852b855");
    let written = RawToken::derive(id, "936da01f-9abd-4d9d-80c7-02af85c822a8");
    assert_eq!(written.token, "66b4d84b49acf377cebe847c3807b62a96fd4b346c041d22baf73565fa324904");
}

#[test]
fn same_nonce_gives_same_token() {
    let first = RawToken::derive(Uuid::from_u128(1), "nonce");
    let second = RawToken::derive(Uuid::from_u128(2), "nonce");
    assert_eq!(first.token, second.token);
    assert_ne!(first.user_id, second.user_id);
    let third = RawToken::derive(Uuid::from_u128(1), "nonce2");
    assert_ne!(first.token, third.token);
}

#[test]
fn issued_token_is_bound_to_the_user() {
    let id = Uuid::from_u128(0x936da01f_9abd_4d9d_80c7_02af85c822a8);
    let raw = user_with_id(id).make_token();
    assert_eq!(raw.user_id, id);
    assert!(is_hex_digest(&raw.token));
}

#[test]
fn two_issued_tokens_differ() {
    let user = user_with_id(Uuid::from_u128(42));
    let first = user.make_token();
    let second = user.make_token();
    assert_eq!(first.user_id, second.user_id);
    assert_ne!(first.token, second.token);
}

#[test]
fn issuing_leaves_the_user_alone() {
    let user = user_with_id(Uuid::from_u128(42));
    let _ = user.make_token();
    assert_eq!(user.id, Uuid::from_u128(42));
    assert_eq!(user.username, "ada");
    assert_eq!(user.encrypted_password, "");
}

#[test]
fn stored_token_holds_the_digest_of_the_issued_one() {
    let raw = RawToken::derive(Uuid::from_u128(7), "abc");
    let created_at = Timestamp { seconds: 1_700_000_000, nanos: 5 };
    let record = UserToken::from_raw(Uuid::from_u128(9), &raw, created_at);
    assert_eq!(record.id, Uuid::from_u128(9));
    assert_eq!(record.user_id, Uuid::from_u128(7));
    assert_eq!(record.created_at, created_at);
    assert_eq!(
        record.hashed_token,
        "dfe7a23fefeea519e9bbfdd1a6be94c4b2e4529dd6b7cbea83f9959c2621b13c"
    );
    assert_ne!(record.hashed_token, raw.token);
}

#[test]
fn stored_token_authenticates_its_user() {
    let user = user_with_id(Uuid::from_u128(42));
    let raw = user.make_token();
    let record = UserToken::from_raw(Uuid::from_u128(1), &raw, user.created_at);
    assert_eq!(record.authenticate(&raw.token), Some(user.id));
}

#[test]
fn other_token_authenticates_nobody() {
    let user = user_with_id(Uuid::from_u128(42));
    let raw = user.make_token();
    let other = user.make_token();
    let record = UserToken::from_raw(Uuid::from_u128(1), &raw, user.created_at);
    assert_eq!(record.authenticate(&other.token), None);
    assert_eq!(record.authenticate(""), None);
    assert_eq!(record.authenticate(&record.hashed_token), None);
    assert_eq!(record.authenticate(&raw.token.to_uppercase()), None);
}

#[test]
fn token_records_compare_by_their_fields() {
    let raw = RawToken::derive(Uuid::from_u128(7), "abc");
    let at = Timestamp { seconds: 1, nanos: 2 };
    let first = UserToken::from_raw(Uuid::from_u128(9), &raw, at);
    let second = UserToken::from_raw(Uuid::from_u128(9), &raw, at);
    let third = UserToken::from_raw(Uuid::from_u128(10), &raw, at);
    assert!(first == second);
    assert!(first != third);
}

#[test]
fn digest_of_known_texts() {
    assert_eq!(
        digest_of("abc").as_deref(),
        Some("ba7816bf8f01cfea414140de5dae2223b00361a396177a9cb410ff61f20015ad")
    );
    assert_eq!(
        digest_of("").as_deref(),
        Some("e3b0c44298fc1c149afbf4c8996fb92427ae41e4649b934ca495991b7852b855")
    );
    assert_ne!(digest_of("abc"), digest_of("abd"));
    assert_eq!(digest_of("abc"), digest_of("abc"));
}

#[test]
fn lookup_key_of_an_issued_token_is_the_stored_digest() {
    let raw = RawToken::derive(Uuid::from_u128(7), "abc");
    let record = UserToken::from_raw(Uuid::from_u128(9), &raw, Timestamp { seconds: 0, nanos: 0 });
    assert_eq!(digest_of(&raw.token), Some(record.hashed_token));
}

#[test]
fn digest_limit_is_two_to_the_61() {
    assert_eq!(DIGEST_INPUT_LIMIT, 1u64 << 61);
}
