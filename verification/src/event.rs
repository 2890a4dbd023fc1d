//! Terminal input as the screens read it.

use vstd::prelude::*;
use tui_input::InputRequest;

verus! {

#[verifier::external_type_specification]
#[verifier::external_body]
pub struct ExInputRequest(tui_input::InputRequest);

/// The key of a key press. Releases, repeats, and everything that is not a key
/// count as `Other`.
#[derive(Clone, Copy, Debug, PartialEq, Eq, Structural)]
pub enum Key {
    Char(char),
    Esc,
    Enter,
    Other,
}

/// One terminal input event.
#[derive(Clone, Copy, Debug, PartialEq, Eq)]
pub struct Event {
    /// The key pressed.
    pub key: Key,
    /// The change that the event asks of a text field that is capturing input.
    pub edit: Option<InputRequest>,
}

impl Event {
    /// A key press that asks nothing of a text field.
    pub fn key(key: Key) -> (event: Event)
        ensures
            event.key == key,
            event.edit.is_none(),
    {
        Event { key, edit: None }
    }

    /// A key press that asks `edit` of a text field.
    pub fn typed(key: Key, edit: InputRequest) -> (event: Event)
        ensures
            event.key == key,
            event.edit == Some(edit),
    {
        Event { key, edit: Some(edit) }
    }
}

} // verus!
