//! Chat endpoints.

use vstd::prelude::*;

verus! {

pub struct GetChatMessagesParams {
    pub since: Option<i64>,
}

pub struct AddChatMessageParams {
    pub message: String,
}

} // verus!
