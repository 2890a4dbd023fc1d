//! The one-line text field in which a new feed name is typed.

use vstd::prelude::*;
use tui_input::{Input, InputRequest};

verus! {

/// What `tui_input::Input::handle` makes of the field
/// `Input::new(value).with_cursor(cursor)`, which holds `value` with `cursor`
/// characters before the cursor: the text and the cursor of the field afterwards,
/// and whether `handle` answered that something changed.
pub uninterp spec fn edited(value: Seq<char>, cursor: nat, request: InputRequest) -> (
    Seq<char>,
    nat,
    bool,
);

/// Builds the field `tui_input::Input::new(value).with_cursor(cursor)`, runs
/// `tui_input::Input::handle` on it with `request`, and returns the field's
/// `value()` and `cursor()` afterwards, and whether `handle` returned `Some`.
/// The contract gives this outcome its name and claims nothing else of it.
#[verifier::external_body]
fn apply_request(value: &String, cursor: usize, request: InputRequest) -> (out: (
    String,
    usize,
    bool,
))
    ensures
        (out.0@, out.1 as nat, out.2) == edited(value@, cursor as nat, request),
{
    let mut input = Input::new(value.clone()).with_cursor(cursor);
    let changed = input.handle(request).is_some();
    (input.value().to_string(), input.cursor(), changed)
}

/// A line of text with a cursor.
#[derive(Debug, PartialEq, Eq)]
pub struct TextField {
    value: String,
    cursor: usize,
}

/// The mathematical value of a [`TextField`].
pub struct TextFieldView {
    pub value: Seq<char>,
    pub cursor: nat,
}

impl TextFieldView {
    /// The field with nothing typed.
    pub open spec fn empty() -> TextFieldView {
        TextFieldView { value: Seq::empty(), cursor: 0 }
    }

    /// The field after `request`.
    pub open spec fn after(self, request: InputRequest) -> TextFieldView {
        let outcome = edited(self.value, self.cursor, request);
        TextFieldView { value: outcome.0, cursor: outcome.1 }
    }

    /// Whether the field answers `request` by saying that something changed.
    pub open spec fn changes(self, request: InputRequest) -> bool {
        edited(self.value, self.cursor, request).2
    }
}

impl View for TextField {
    type V = TextFieldView;

    closed spec fn view(&self) -> TextFieldView {
        TextFieldView { value: self.value@, cursor: self.cursor as nat }
    }
}

impl TextField {
    /// An empty field.
    pub fn new() -> (field: TextField)
        ensures
            field@ == TextFieldView::empty(),
    {
        TextField { value: String::new(), cursor: 0 }
    }

    /// The text typed so far.
    pub fn value(&self) -> (value: &String)
        ensures
            value@ == self@.value,
    {
        &self.value
    }

    /// The number of characters before the cursor.
    pub fn cursor(&self) -> (cursor: usize)
        ensures
            cursor as nat == self@.cursor,
    {
        self.cursor
    }

    /// Empties the field.
    pub fn reset(&mut self)
        ensures
            final(self)@ == TextFieldView::empty(),
    {
        self.value = String::new();
        self.cursor = 0;
    }

    /// Empties the field and returns what it held.
    pub fn value_and_reset(&mut self) -> (value: String)
        ensures
            value@ == old(self)@.value,
            final(self)@ == TextFieldView::empty(),
    {
        let mut value = String::new();
        core::mem::swap(&mut self.value, &mut value);
        self.cursor = 0;
        value
    }

    /// Applies one editing request and says whether the field answered that
    /// something changed.
    pub fn apply(&mut self, request: InputRequest) -> (changed: bool)
        ensures
            final(self)@ == old(self)@.after(request),
            changed == old(self)@.changes(request),
    {
        let (value, cursor, changed) = apply_request(&self.value, self.cursor, request);
        self.value = value;
        self.cursor = cursor;
        changed
    }
}

} // verus!
