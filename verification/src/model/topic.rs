use crate::model::UserId;
use vstd::prelude::*;

verus! {

/// The topic of a conversation: its text, who set it and when.
pub struct Topic {
    pub value: String,
    pub creator: UserId,
    pub last_set: u64,
}

} // verus!
