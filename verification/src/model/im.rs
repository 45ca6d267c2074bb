use crate::model::UserId;
use vstd::prelude::*;

verus! {

/// A direct message conversation with one user.
pub struct Im {
    pub id: String,
    pub created: u64,
    pub is_im: bool,
    pub is_org_shared: bool,
    pub user: UserId,
    pub is_user_deleted: bool,
}

} // verus!
