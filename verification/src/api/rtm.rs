use crate::model::{Me, Team};
use vstd::prelude::*;

verus! {

/// The answer to `rtm.connect`: where the real-time socket is, and whose
/// team and user the token belongs to.
pub struct ConnectResponse {
    pub ok: bool,
    pub url: Option<String>,
    pub team: Option<Team>,
    pub me: Option<Me>,
    pub error: Option<String>,
}

} // verus!
