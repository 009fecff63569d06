//! Bookmark endpoints.

use vstd::prelude::*;
use crate::error::{ErrorCode, SubsonicError};

verus! {

pub struct CreateBookmarkParams {
    pub id: String,
    pub position: i64,
    pub comment: Option<String>,
}

pub struct DeleteBookmarkParams {
    pub id: String,
}

/// The answer to every request that would create or delete a bookmark.
pub fn bookmarks_unsupported() -> (e: SubsonicError)
    ensures
        e.code == ErrorCode::NotAuthorized,
        e.message@ == "Bookmarks are not supported"@,
{
    SubsonicError::not_authorized("Bookmarks are not supported")
}

} // verus!
