//! Request identifiers: the random text under which a call awaits its reply.

use vstd::prelude::*;

verus! {

/// A lower-case hexadecimal digit.
pub open spec fn is_lower_hex(c: char) -> bool {
    ('0' <= c && c <= '9') || ('a' <= c && c <= 'f')
}

/// The text has the shape of a random (version 4) UUID in its hyphenated
/// lower-case form: 36 characters in groups of 8, 4, 4, 4 and 12 hexadecimal
/// digits, the third group led by `4` and the fourth by `8`, `9`, `a` or `b`.
pub open spec fn is_request_id(text: Seq<char>) -> bool {
    &&& text.len() == 36
    &&& forall|i: int|
        0 <= i < 36 ==> if i == 8 || i == 13 || i == 18 || i == 23 {
            #[trigger] text[i] == '-'
        } else {
            is_lower_hex(text[i])
        }
    &&& text[14] == '4'
    &&& (text[19] == '8' || text[19] == '9' || text[19] == 'a' || text[19] == 'b')
}

/// `Uuid::new_v4`, rendered by the `Display` of `Uuid`: a fresh random
/// identifier in hyphenated lower-case form. Which one is left open; only
/// its shape is claimed. The call fails only where the system has no
/// randomness to give.
#[verifier::external_body]
pub(crate) fn new_request_id() -> (id: String)
    ensures
        is_request_id(id@),
{
    uuid::Uuid::new_v4().to_string()
}

} // verus!
