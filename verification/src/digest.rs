//! The fast one-way digest that session tokens pass through.

use crypto::digest::Digest;
use crypto::sha2::Sha256;
use vstd::prelude::*;
use vstd::utf8::{encode_utf8, is_ascii_chars, is_ascii_chars_encode_utf8};

verus! {

/// The SHA-256 digest of the UTF-8 encoding of `text`, written as 64
/// lower-case hexadecimal digits. The algorithm is not restated here.
pub uninterp spec fn sha256_hex(text: Seq<char>) -> Seq<char>;

/// The digest counts its input in bits in a 64-bit word, so it takes fewer
/// than 2^61 bytes.
pub const DIGEST_INPUT_LIMIT: u64 = 0x2000_0000_0000_0000;

/// `text` is short enough to be digested.
pub open spec fn digestible(text: Seq<char>) -> bool {
    encode_utf8(text).len() < DIGEST_INPUT_LIMIT
}

/// `c` is one of `0`..`9`, `a`..`f`.
pub open spec fn is_lower_hex(c: char) -> bool {
    ('0' <= c && c <= '9') || ('a' <= c && c <= 'f')
}

/// `text` has the shape of a digest: 64 lower-case hexadecimal digits.
pub open spec fn is_hex_digest(text: Seq<char>) -> bool {
    &&& text.len() == 64
    &&& forall|i: int| 0 <= i < text.len() ==> is_lower_hex(#[trigger] text[i])
}

/// A digest can itself be digested.
pub proof fn lemma_hex_digest_is_digestible(text: Seq<char>)
    requires
        is_hex_digest(text),
    ensures
        digestible(text),
{
    assert(is_ascii_chars(text)) by {
        assert forall|i: int| 0 <= i < text.len() implies '\0' <= #[trigger] text[i] <= '\u{7f}' by {
            assert(is_lower_hex(text[i]));
        }
    }
    is_ascii_chars_encode_utf8(text);
}

/// `Sha256::new`, `Digest::input_str` and `Digest::result_str` of
/// rust-crypto, on a fresh hasher: the result is the hexadecimal SHA-256
/// digest of the text's bytes, which depends on the text alone and is 64
/// lower-case hexadecimal digits long. The hasher panics on 2^61 bytes or
/// more, which `requires` leaves out.
#[verifier::external_body]
pub(crate) fn sha256_hex_digest(text: &str) -> (digest: String)
    requires
        digestible(text@),
    ensures
        digest@ == sha256_hex(text@),
        is_hex_digest(digest@),
{
    let mut hasher = Sha256::new();
    hasher.input_str(text);
    hasher.result_str()
}

/// The digest of `text`, under which a stored token is found again; `None`
/// for a text too long to be digested, and for no other.
pub fn digest_of(text: &str) -> (digest: Option<String>)
    ensures
        digest is Some <==> digestible(text@),
        digest matches Some(d) ==> d@ == sha256_hex(text@) && is_hex_digest(d@),
{
    if text.as_bytes().len() as u64 >= DIGEST_INPUT_LIMIT {
        None
    } else {
        Some(sha256_hex_digest(text))
    }
}

} // verus!
