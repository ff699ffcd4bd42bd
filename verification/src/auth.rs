//! The caller, as the layers before this one have established it.

use vstd::prelude::*;

verus! {

/// An authenticated caller.
#[derive(Clone, Debug)]
pub struct SdzAuthUser {
    pub sdz_user_id: String,
}

/// The caller's id according to the claims of an identity token: the
/// `user_id` claim where it is set, the subject otherwise.
pub open spec fn claimed_user_id(user_id: Seq<char>, sub: Seq<char>) -> Seq<char> {
    if user_id.len() > 0 {
        user_id
    } else {
        sub
    }
}

/// Picks the caller's id from the claims of an identity token.
pub fn sdz_user_id(user_id: &str, sub: &str) -> (r: String)
    ensures
        r@ == claimed_user_id(user_id@, sub@),
{
    if !user_id.is_empty() {
        user_id.to_owned()
    } else {
        sub.to_owned()
    }
}

impl SdzAuthUser {
    /// The caller that the claims of an identity token name.
    pub fn from_claims(user_id: &str, sub: &str) -> (r: SdzAuthUser)
        ensures
            r.sdz_user_id@ == claimed_user_id(user_id@, sub@),
    {
        SdzAuthUser { sdz_user_id: sdz_user_id(user_id, sub) }
    }
}

} // verus!
