use crate::model::{Purpose, Topic, UserId};
use vstd::prelude::*;

verus! {

/// A public channel.
pub struct Channel {
    pub id: String,
    pub name: String,
    pub is_channel: bool,
    pub created: u64,
    pub creator: UserId,
    pub is_archived: bool,
    pub is_general: bool,
    pub name_normalized: String,
    pub is_shared: bool,
    pub is_org_shared: bool,
    pub is_member: bool,
    pub is_private: bool,
    pub is_mpim: bool,
    pub topic: Topic,
    pub purpose: Purpose,
}

} // verus!
