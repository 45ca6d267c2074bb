use crate::model::UserId;
use vstd::prelude::*;

verus! {

/// The user that a workspace token belongs to.
pub struct Me {
    pub id: UserId,
    pub name: String,
}

} // verus!
