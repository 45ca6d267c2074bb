use crate::model::{Purpose, Topic, UserId};
use vstd::prelude::*;

verus! {

/// A multi-party direct message conversation.
pub struct Mpim {
    pub id: String,
    pub name: String,
    pub is_mpim: bool,
    pub is_group: bool,
    pub created: u64,
    pub creator: UserId,
    pub is_archived: bool,
    pub is_member: bool,
    pub is_private: bool,
    pub topic: Topic,
    pub purpose: Purpose,
}

} // verus!
