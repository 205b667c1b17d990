//! Record identifiers.

use uuid::Uuid;
use vstd::prelude::*;
use vstd::utf8::is_ascii_chars;

verus! {

/// `uuid::Uuid`, the identifier of users, files and token records. The
/// records carry it as an opaque value: nothing here looks inside one.
#[verifier::external_type_specification]
#[verifier::external_body]
pub struct ExUuid(uuid::Uuid);

/// `text` has the shape of an identifier written out: 36 ASCII characters.
pub open spec fn is_identifier_text(text: Seq<char>) -> bool {
    text.len() == 36 && is_ascii_chars(text)
}

/// `Uuid::new_v4`, written out with `to_string`: a random version-4
/// identifier in its hyphenated form, which is 36 ASCII characters long
/// whatever was drawn. Which identifier comes back is left open: two calls
/// need not agree. The outside function panics when the system's entropy
/// source fails.
#[verifier::external_body]
pub(crate) fn random_identifier_text() -> (text: String)
    ensures
        is_identifier_text(text@),
{
    Uuid::new_v4().to_string()
}

} // verus!
