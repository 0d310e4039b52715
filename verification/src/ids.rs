//! Fresh identifiers and timestamps: the two values of a request that come
//! from chance and from the clock.
use vstd::prelude::*;

verus! {

/// A lower-case hexadecimal digit.
pub open spec fn is_lower_hex(c: char) -> bool {
    ('0' <= c && c <= '9') || ('a' <= c && c <= 'f')
}

/// Text in the hyphenated form of a version-4 UUID:
/// `xxxxxxxx-xxxx-4xxx-xxxx-xxxxxxxxxxxx` in lower-case hexadecimal.
pub open spec fn is_uuid_v4_text(s: Seq<char>) -> bool {
    &&& s.len() == 36
    &&& forall|i: int|
        0 <= i < 36 ==> if i == 8 || i == 13 || i == 18 || i == 23 {
            #[trigger] s[i] == '-'
        } else {
            is_lower_hex(s[i])
        }
    &&& s[14] == '4'
}

/// Whether `s` ends with `suffix`.
pub open spec fn ends_with(s: Seq<char>, suffix: Seq<char>) -> bool {
    suffix.len() <= s.len() && s.subrange(s.len() - suffix.len(), s.len() as int) == suffix
}

/// A fresh random identifier: `uuid::Uuid::new_v4()` written out by its
/// `Display` impl. The uuid crate writes the hyphenated lower-case form and
/// sets the version nibble to 4; which random value comes out is not stated.
#[verifier::external_body]
pub(crate) fn new_id() -> (r: String)
    ensures
        is_uuid_v4_text(r@),
{
    uuid::Uuid::new_v4().to_string()
}

/// The current time: `chrono::Utc::now().to_rfc3339()`. For the UTC offset
/// chrono writes the offset as `+00:00`; the time itself is not stated.
#[verifier::external_body]
pub(crate) fn now_timestamp() -> (r: String)
    ensures
        ends_with(r@, "+00:00"@),
{
    chrono::Utc::now().to_rfc3339()
}

} // verus!
