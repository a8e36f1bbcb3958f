//! Fresh identifiers for brokers and publish attempts.

use vstd::prelude::*;

verus! {

/// Number of characters in the hyphenated textual form of a UUID.
pub const UUID_TEXT_LEN: usize = 36;

/// Whether `c` is a digit of lower-case hexadecimal notation.
pub open spec fn is_lower_hex(c: char) -> bool {
    ('0' <= c && c <= '9') || ('a' <= c && c <= 'f')
}

/// Whether `text` is the hyphenated lower-case form of a version-4 UUID:
/// 32 hexadecimal digits in groups of 8, 4, 4, 4 and 12, with a hyphen
/// between groups, the third group starting with the version digit.
pub open spec fn is_uuid_v4_text(text: Seq<char>) -> bool {
    &&& text.len() == UUID_TEXT_LEN
    &&& forall|i: int|
        0 <= i < text.len() ==> if i == 8 || i == 13 || i == 18 || i == 23 {
            #[trigger] text[i] == '-'
        } else {
            is_lower_hex(text[i])
        }
    &&& text[14] == '4'
}

/// Draws a random version-4 UUID with `uuid::Uuid::new_v4` and renders it with
/// the crate's `Display` impl, which writes the lower-case hyphenated form.
///
/// Trusted: the only facts claimed are the shape of that form and the
/// version digit that `new_v4` sets. Which identifier comes back is left
/// open, so two calls may differ.
#[verifier::external_body]
pub(crate) fn fresh_uuid() -> (id: String)
    ensures
        is_uuid_v4_text(id@),
{
    uuid::Uuid::new_v4().to_string()
}

} // verus!
