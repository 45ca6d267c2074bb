use crate::action::{Action, ActionType};
use vstd::prelude::*;

verus! {

/// The part of a real-time event that decides what to do with it: its
/// `type` field.
pub struct MessageType {
    pub message_type: String,
}

/// What a real-time event asks for: a `hello` event asks for the
/// conversation lists; any other event asks for nothing.
pub fn handle_message(message: &MessageType) -> (action: Option<Action>)
    ensures
        action == (if message.message_type@ == "hello"@ {
            Some(Action { kind: ActionType::Hello })
        } else {
            None
        }),
{
    let hello = String::from_str("hello");
    if message.message_type == hello {
        Some(Action::hello())
    } else {
        None
    }
}

} // verus!
