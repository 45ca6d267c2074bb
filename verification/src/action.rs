use vstd::prelude::*;

verus! {

/// What the client is asked to do next for a workspace.
#[derive(Clone, Copy, Debug, PartialEq, Eq, Structural)]
pub enum ActionType {
    /// The real-time socket said hello: fetch the conversation lists.
    Hello,
    /// Time to ping the real-time socket.
    Ping,
}

/// A request to the loop that drives one workspace.
#[derive(Clone, Copy, Debug, PartialEq, Eq, Structural)]
pub struct Action {
    pub kind: ActionType,
}

impl Action {
    /// The action that answers the socket's `hello`.
    pub fn hello() -> (action: Action)
        ensures
            action.kind == ActionType::Hello,
    {
        Action { kind: ActionType::Hello }
    }

    /// The action that pings the socket.
    pub fn ping() -> (action: Action)
        ensures
            action.kind == ActionType::Ping,
    {
        Action { kind: ActionType::Ping }
    }
}

} // verus!
