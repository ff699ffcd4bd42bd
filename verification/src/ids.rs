//! Unique ids for what the service creates.

use vstd::prelude::*;
use crate::digest::lower_hex_digits;

verus! {

/// Whether a character is a lower-case hexadecimal digit.
pub open spec fn is_lower_hex(c: char) -> bool {
    exists|k: int| 0 <= k < 16 && c == #[trigger] lower_hex_digits()[k]
}

/// The canonical text form of a 128-bit unique id: 36 characters, hyphens
/// at places 8, 13, 18 and 23, lower-case hexadecimal digits elsewhere.
pub open spec fn is_unique_id_text(s: Seq<char>) -> bool {
    &&& s.len() == 36
    &&& forall|i: int|
        0 <= i < 36 ==> if i == 8 || i == 13 || i == 18 || i == 23 {
            #[trigger] s[i] == '-'
        } else {
            is_lower_hex(s[i])
        }
}

/// `uuid::Uuid::new_v4` and the id's `to_string`: a fresh random id in its
/// hyphenated lower-case form. Which id it is, nothing says.
#[verifier::external_body]
pub(crate) fn fresh_unique_id() -> (r: String)
    ensures
        is_unique_id_text(r@),
{
    uuid::Uuid::new_v4().to_string()
}

} // verus!
