use vstd::prelude::*;

verus! {

/// A Slack team (workspace), as `rtm.connect` reports it.
pub struct Team {
    pub id: String,
    pub name: String,
}

} // verus!
