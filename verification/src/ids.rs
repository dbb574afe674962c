//! Fresh identifiers and timestamps.

use vstd::prelude::*;
use vstd::utf8::is_ascii_chars;

verus! {

/// The characters of `0-9a-f`.
pub open spec fn is_lower_hex_digit(c: char) -> bool {
    ('0' <= c && c <= '9') || ('a' <= c && c <= 'f')
}

/// `s` is a UUID written in its hyphenated lower-case form, such as
/// `67e55044-10b1-426f-9247-bb680e5fe0c8`.
pub open spec fn is_hyphenated_uuid(s: Seq<char>) -> bool {
    &&& s.len() == 36
    &&& forall|i: int|
        0 <= i < 36 ==> if i == 8 || i == 13 || i == 18 || i == 23 {
            #[trigger] s[i] == '-'
        } else {
            is_lower_hex_digit(s[i])
        }
}

/// A short identifier: eight lower-case hexadecimal digits.
pub open spec fn is_short_id(s: Seq<char>) -> bool {
    &&& s.len() == 8
    &&& forall|i: int| 0 <= i < 8 ==> is_lower_hex_digit(#[trigger] s[i])
}

/// Calls `uuid::Uuid::new_v4` and formats the result with `to_string`.
/// The value is random; what is claimed is only the shape that the
/// crate's `Display` impl writes: 36 characters, lower-case hex digits,
/// with hyphens at positions 8, 13, 18 and 23.
#[verifier::external_body]
fn random_uuid_text() -> (s: String)
    ensures
        is_hyphenated_uuid(s@),
{
    uuid::Uuid::new_v4().to_string()
}

/// Calls `chrono::Utc::now` and formats it with `to_rfc3339`.
/// The result depends on the clock; nothing is claimed of it.
#[verifier::external_body]
pub(crate) fn now() -> String {
    chrono::Utc::now().to_rfc3339()
}

/// A fresh short identifier: the first eight characters of a random UUID.
pub fn uid() -> (id: String)
    ensures
        is_short_id(id@),
{
    let full = random_uuid_text();
    assert(is_ascii_chars(full@)) by {
        assert forall|i: int| 0 <= i < full@.len() implies '\0' <= #[trigger] full@[i] <= '\u{7f}' by {
            if i == 8 || i == 13 || i == 18 || i == 23 {
            } else {
                assert(is_lower_hex_digit(full@[i]));
            }
        }
    }
    let short = full.as_str().substring_ascii(0, 8);
    let id = String::from_str(short);
    assert forall|i: int| 0 <= i < 8 implies is_lower_hex_digit(#[trigger] id@[i]) by {
        assert(id@[i] == full@[i]);
        assert(i != 8 && i != 13 && i != 18 && i != 23);
    }
    id
}

} // verus!
