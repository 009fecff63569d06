//! Share endpoints.

use vstd::prelude::*;
use crate::error::{ErrorCode, SubsonicError};

verus! {

pub struct CreateShareParams {
    pub id: Vec<String>,
    pub description: Option<String>,
    pub expires: Option<i64>,
}

pub struct UpdateShareParams {
    pub id: String,
    pub description: Option<String>,
    pub expires: Option<i64>,
}

pub struct DeleteShareParams {
    pub id: String,
}

/// The answer to every request that would create, change or delete a share.
pub fn sharing_unsupported() -> (e: SubsonicError)
    ensures
        e.code == ErrorCode::NotAuthorized,
        e.message@ == "Sharing is not supported"@,
{
    SubsonicError::not_authorized("Sharing is not supported")
}

} // verus!
