//! What the keys of the editor do.

use crate::event::Key;
use crate::state::StateMessage;
use vstd::prelude::*;

verus! {

/// What a key asks of the editor as a whole.
#[derive(Clone, Copy, Debug, PartialEq, Eq, Structural)]
pub enum GlobalAction {
    Quit,
}

/// What a key does: Escape quits, a character is inserted, and every other
/// key does nothing.
pub open spec fn handle_key_event_spec(key_event: Key) -> (Option<GlobalAction>, Option<StateMessage>) {
    match key_event {
        Key::Escape => (Some(GlobalAction::Quit), None),
        Key::CharKey(ch) => (None, Some(StateMessage::InsertChar(ch))),
        _ => (None, None),
    }
}

/// Decides what a key does: the action it asks of the editor, if any, and the
/// message it has for the editor's state, if any.
pub fn handle_key_event(key_event: Key) -> (outcome: (Option<GlobalAction>, Option<StateMessage>))
    ensures
        outcome == handle_key_event_spec(key_event),
{
    match key_event {
        Key::Escape => (Some(GlobalAction::Quit), None),
        Key::CharKey(ch) => (None, Some(StateMessage::InsertChar(ch))),
        _ => (None, None),
    }
}

} // verus!
