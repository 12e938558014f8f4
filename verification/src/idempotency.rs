//! Idempotency keys: the token by which the gateway recognises a request
//! that is sent a second time.

use vstd::prelude::*;

verus! {

/// Whether `c` is one of `0`..`9`, `a`..`f`.
pub open spec fn is_lower_hex_digit(c: char) -> bool {
    ('0' <= c && c <= '9') || ('a' <= c && c <= 'f')
}

/// Whether a hyphen stands at index `i` of the 8-4-4-4-12 layout.
pub open spec fn is_hyphen_index(i: int) -> bool {
    i == 8 || i == 13 || i == 18 || i == 23
}

/// Whether `c` may stand at index `i` of the 8-4-4-4-12 layout: a hyphen
/// where hyphens go, a lower-case hexadecimal digit elsewhere.
pub open spec fn is_key_char_at(i: int, c: char) -> bool {
    if is_hyphen_index(i) {
        c == '-'
    } else {
        is_lower_hex_digit(c)
    }
}

/// Whether `text` is the hyphenated lower-case rendering of a random
/// (version 4, RFC variant) UUID: 36 characters, hyphens at 8, 13, 18 and 23,
/// hexadecimal digits elsewhere, `4` as the version digit and one of `8`,
/// `9`, `a`, `b` as the variant digit.
pub open spec fn is_random_uuid_text(text: Seq<char>) -> bool {
    &&& text.len() == 36
    &&& forall|i: int| 0 <= i < 36 ==> is_key_char_at(i, #[trigger] text[i])
    &&& text[14] == '4'
    &&& (text[19] == '8' || text[19] == '9' || text[19] == 'a' || text[19] == 'b')
}

/// Draws a key from `uuid::Uuid::new_v4` and renders it with the `Display`
/// of `uuid::Uuid`.
///
/// Trusted: the contract is not proved. It claims only the shape of the text,
/// which holds whatever the random bits are: `new_v4` fixes the version and
/// variant bits, and `Display` writes the hyphenated lower-case form. Nothing
/// is claimed of the other digits, and two calls may or may not agree.
/// `new_v4` panics when the operating system hands out no random bytes.
#[verifier::external_body]
pub(crate) fn fresh_idempotency_key() -> (key: String)
    ensures
        is_random_uuid_text(key@),
{
    uuid::Uuid::new_v4().to_string()
}

} // verus!
