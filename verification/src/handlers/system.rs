//! System endpoints: ping, license, extensions, token info.

use vstd::prelude::*;

verus! {

/// The user `tokenInfo` reports: the authenticated one, or `anonymous`.
pub fn token_info_user(auth_user: &Option<String>) -> (r: String)
    ensures
        r@ == (match *auth_user {
            Some(u) => u@,
            None => "anonymous"@,
        }),
{
    match auth_user {
        Some(u) => u.clone(),
        None => String::from_str("anonymous"),
    }
}

} // verus!
