use crate::model::UserId;
use vstd::prelude::*;

verus! {

/// The purpose of a conversation: its text, who set it and when.
pub struct Purpose {
    pub value: String,
    pub creator: UserId,
    pub last_set: u64,
}

} // verus!
