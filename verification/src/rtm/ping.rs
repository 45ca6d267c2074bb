use vstd::prelude::*;

verus! {

/// How many seconds pass between two pings of a workspace's socket.
pub const PING_INTERVAL_SECS: u64 = 5;

} // verus!
