//! The list of subscribed feeds: selection, adding and removing feeds.
//!
//! The highlight stops at both ends of the list, where the list that draws the
//! feeds (`ratatui::widgets::List`) would hold it on its next draw.

use vstd::prelude::*;
use tui_input::InputRequest;
use crate::action::{
    actions_view, draw_action, no_actions, push_action, send_draw, Action, ActionView,
};
use crate::app::{AppEvent, AppEventView};
use crate::event::{Event, Key};
use crate::input::{TextField, TextFieldView};
use crate::text::{clone_strings, contains_string, strings_view, trim, trimmed};

verus! {

/// The feed list screen.
#[derive(Debug)]
pub struct SublistComponent {
    subs: Vec<String>,
    selected: Option<usize>,
    adding: bool,
    sub_input: TextField,
}

/// The mathematical value of a [`SublistComponent`].
pub struct SublistView {
    /// The feed names, in display order.
    pub subs: Seq<Seq<char>>,
    /// The highlighted feed.
    pub selected: Option<nat>,
    /// Whether a new feed name is being typed.
    pub adding: bool,
    /// The name typed so far.
    pub input: TextFieldView,
}

impl SublistView {
    /// A feed is highlighted exactly when there is one, and the highlight is on a
    /// feed of the list.
    pub open spec fn wf(self) -> bool {
        match self.selected {
            Some(index) => index < self.subs.len(),
            None => self.subs.len() == 0,
        }
    }

    /// The screen as it starts, over the given feeds.
    pub open spec fn initial(subs: Seq<Seq<char>>) -> SublistView {
        SublistView {
            subs,
            selected: if subs.len() > 0 {
                Some(0nat)
            } else {
                None
            },
            adding: false,
            input: TextFieldView::empty(),
        }
    }

    /// The highlight moves one feed down and stops at the last.
    pub open spec fn select_next(self) -> SublistView {
        SublistView {
            selected: match self.selected {
                Some(index) => if index + 1 < self.subs.len() {
                    Some(index + 1)
                } else {
                    Some(index)
                },
                None => None,
            },
            ..self
        }
    }

    /// The highlight moves one feed up and stops at the first.
    pub open spec fn select_previous(self) -> SublistView {
        SublistView {
            selected: match self.selected {
                Some(index) => if index > 0 {
                    Some((index - 1) as nat)
                } else {
                    Some(index)
                },
                None => None,
            },
            ..self
        }
    }

    /// The screen starts to capture a feed name.
    pub open spec fn begin_add(self) -> SublistView {
        SublistView { adding: true, ..self }
    }

    /// The capture ends and what was typed is discarded.
    pub open spec fn cancel_add(self) -> SublistView {
        SublistView { adding: false, input: TextFieldView::empty(), ..self }
    }

    /// The name that a confirmation would add: what was typed, without the white
    /// space around it.
    pub open spec fn typed_name(self) -> Seq<char> {
        trimmed(self.input.value)
    }

    /// Whether a confirmation adds a feed: the name is not empty and not yet in
    /// the list.
    pub open spec fn adds(self) -> bool {
        self.typed_name().len() > 0 && !self.subs.contains(self.typed_name())
    }

    /// The capture ends; the typed name joins the end of the list if it is new.
    pub open spec fn confirm_add(self) -> SublistView {
        SublistView {
            subs: if self.adds() {
                self.subs.push(self.typed_name())
            } else {
                self.subs
            },
            selected: if self.adds() && self.selected.is_none() {
                Some(0nat)
            } else {
                self.selected
            },
            adding: false,
            input: TextFieldView::empty(),
        }
    }

    /// The text field takes one editing request.
    pub open spec fn edit(self, request: InputRequest) -> SublistView {
        SublistView { input: self.input.after(request), ..self }
    }

    /// The highlighted feed leaves the list. The highlight stays at its position,
    /// or moves to the new last feed, or goes when no feed is left.
    pub open spec fn remove_selected(self) -> SublistView {
        match self.selected {
            Some(index) => SublistView {
                subs: self.subs.remove(index as int),
                selected: if self.subs.len() <= 1 {
                    None
                } else if index + 1 < self.subs.len() {
                    Some(index)
                } else {
                    Some((index - 1) as nat)
                },
                ..self
            },
            None => self,
        }
    }

    /// The screen after `event`.
    pub open spec fn after(self, event: Event) -> SublistView {
        if self.adding {
            match event.key {
                Key::Esc => self.cancel_add(),
                Key::Enter => self.confirm_add(),
                _ => match event.edit {
                    Some(request) => self.edit(request),
                    None => self,
                },
            }
        } else {
            match event.key {
                Key::Char(c) => if c == 'j' {
                    self.select_next()
                } else if c == 'k' {
                    self.select_previous()
                } else if c == 'a' {
                    self.begin_add()
                } else if c == 'd' {
                    self.remove_selected()
                } else {
                    self
                },
                _ => self,
            }
        }
    }

    /// What `event` asks of the surrounding program, in order.
    pub open spec fn actions(self, event: Event) -> Seq<ActionView> {
        if self.adding {
            match event.key {
                Key::Esc => seq![send_draw()],
                Key::Enter => if self.adds() {
                    seq![ActionView::SaveSubs(self.confirm_add().subs), send_draw()]
                } else {
                    seq![send_draw()]
                },
                _ => match event.edit {
                    Some(request) => if self.input.changes(request) {
                        seq![send_draw()]
                    } else {
                        Seq::empty()
                    },
                    None => Seq::empty(),
                },
            }
        } else {
            match event.key {
                Key::Char(c) => if c == 'j' || c == 'k' || c == 'a' {
                    seq![send_draw()]
                } else if c == 'd' {
                    if self.selected.is_some() {
                        seq![ActionView::SaveSubs(self.remove_selected().subs), send_draw()]
                    } else {
                        seq![send_draw()]
                    }
                } else if c == 'l' {
                    match self.selected {
                        Some(index) => seq![
                            ActionView::Send(AppEventView::OpenPostList(self.subs[index as int])),
                        ],
                        None => Seq::empty(),
                    }
                } else {
                    Seq::empty()
                },
                _ => Seq::empty(),
            }
        }
    }
}

/// The mathematical value of an optional index.
pub open spec fn index_view(index: Option<usize>) -> Option<nat> {
    match index {
        Some(index) => Some(index as nat),
        None => None,
    }
}

impl View for SublistComponent {
    type V = SublistView;

    closed spec fn view(&self) -> SublistView {
        SublistView {
            subs: strings_view(self.subs@),
            selected: index_view(self.selected),
            adding: self.adding,
            input: self.sub_input@,
        }
    }
}

impl SublistComponent {
    /// The screen over the given feeds, with the first one highlighted.
    pub fn new(subs: Vec<String>) -> (screen: SublistComponent)
        ensures
            screen@ == SublistView::initial(strings_view(subs@)),
            screen@.wf(),
    {
        let selected = if subs.len() > 0 {
            Some(0usize)
        } else {
            None
        };
        SublistComponent { subs, selected, adding: false, sub_input: TextField::new() }
    }

    /// The feed names, in display order.
    pub fn subs(&self) -> (subs: &Vec<String>)
        ensures
            strings_view(subs@) == self@.subs,
    {
        &self.subs
    }

    /// The position of the highlighted feed.
    pub fn selected(&self) -> (selected: Option<usize>)
        ensures
            index_view(selected) == self@.selected,
    {
        self.selected
    }

    /// Whether a new feed name is being typed.
    pub fn adding(&self) -> (adding: bool)
        ensures
            adding == self@.adding,
    {
        self.adding
    }

    /// The text field of the new feed name.
    pub fn sub_input(&self) -> (input: &TextField)
        ensures
            input@ == self@.input,
    {
        &self.sub_input
    }

    /// Moves the highlight one feed down; at the last feed it stays.
    pub fn select_next(&mut self)
        requires
            old(self)@.wf(),
        ensures
            final(self)@ == old(self)@.select_next(),
            final(self)@.wf(),
    {
        if let Some(index) = self.selected {
            assert(index < self.subs.len());
            if index + 1 < self.subs.len() {
                self.selected = Some(index + 1);
            }
        }
    }

    /// Moves the highlight one feed up; at the first feed it stays.
    pub fn select_previous(&mut self)
        requires
            old(self)@.wf(),
        ensures
            final(self)@ == old(self)@.select_previous(),
            final(self)@.wf(),
    {
        if let Some(index) = self.selected {
            if index > 0 {
                self.selected = Some(index - 1);
            }
        }
    }

    /// Starts the capture of a new feed name.
    pub fn begin_add(&mut self)
        ensures
            final(self)@ == old(self)@.begin_add(),
    {
        self.adding = true;
    }

    /// Ends the capture and discards what was typed.
    pub fn cancel_add(&mut self)
        ensures
            final(self)@ == old(self)@.cancel_add(),
    {
        self.adding = false;
        self.sub_input.reset();
    }

    /// Ends the capture. The typed name, trimmed, is appended if it is not empty
    /// and not in the list; the result says whether it was.
    pub fn confirm_add(&mut self) -> (added: bool)
        requires
            old(self)@.wf(),
        ensures
            final(self)@ == old(self)@.confirm_add(),
            added == old(self)@.adds(),
            final(self)@.wf(),
    {
        self.adding = false;
        let typed = self.sub_input.value_and_reset();
        let name = trim(&typed);
        if name.as_str().unicode_len() > 0 && !contains_string(&self.subs, &name) {
            self.subs.push(name);
            if self.selected.is_none() {
                self.selected = Some(0);
            }
            assert(strings_view(self.subs@) =~= strings_view(old(self).subs@).push(name@));
            true
        } else {
            false
        }
    }

    /// Passes one editing request to the text field and says whether the field
    /// answered that something changed.
    pub fn edit(&mut self, request: InputRequest) -> (changed: bool)
        ensures
            final(self)@ == old(self)@.edit(request),
            changed == old(self)@.input.changes(request),
    {
        self.sub_input.apply(request)
    }

    /// Removes the highlighted feed and says whether there was one.
    pub fn remove_selected(&mut self) -> (removed: bool)
        requires
            old(self)@.wf(),
        ensures
            final(self)@ == old(self)@.remove_selected(),
            removed == old(self)@.selected.is_some(),
            final(self)@.wf(),
    {
        match self.selected {
            Some(index) => {
                self.subs.remove(index);
                assert(strings_view(self.subs@) =~= strings_view(old(self).subs@).remove(
                    index as int,
                ));
                if self.subs.len() == 0 {
                    self.selected = None;
                } else if index >= self.subs.len() {
                    self.selected = Some(index - 1);
                }
                true
            },
            None => false,
        }
    }

    /// The name of the highlighted feed.
    pub fn selected_sub(&self) -> (sub: Option<&String>)
        requires
            self@.wf(),
        ensures
            match self@.selected {
                Some(index) => sub.is_some() && sub.unwrap()@ == self@.subs[index as int],
                None => sub.is_none(),
            },
    {
        match self.selected {
            Some(index) => Some(&self.subs[index]),
            None => None,
        }
    }

    /// Handles one input event and returns what it asks of the surrounding
    /// program. Outside the capture, `j` and `k` move the highlight, `a` starts the
    /// capture, `d` removes the highlighted feed and `l` opens it. In the capture,
    /// Escape cancels, Enter confirms, and any other event goes to the text field.
    pub fn handle_event(&mut self, event: &Event) -> (actions: Vec<Action>)
        requires
            old(self)@.wf(),
        ensures
            final(self)@ == old(self)@.after(*event),
            actions_view(actions@) == old(self)@.actions(*event),
            final(self)@.wf(),
    {
        let mut actions = no_actions();
        if self.adding {
            match event.key {
                Key::Esc => {
                    self.cancel_add();
                    push_action(&mut actions, draw_action());
                },
                Key::Enter => {
                    if self.confirm_add() {
                        push_action(&mut actions, Action::SaveSubs(clone_strings(&self.subs)));
                    }
                    push_action(&mut actions, draw_action());
                },
                _ => {
                    if let Some(request) = event.edit {
                        if self.edit(request) {
                            push_action(&mut actions, draw_action());
                        }
                    }
                },
            }
        } else {
            if let Key::Char(c) = event.key {
                if c == 'j' {
                    self.select_next();
                    push_action(&mut actions, draw_action());
                } else if c == 'k' {
                    self.select_previous();
                    push_action(&mut actions, draw_action());
                } else if c == 'a' {
                    self.begin_add();
                    push_action(&mut actions, draw_action());
                } else if c == 'd' {
                    if self.remove_selected() {
                        push_action(&mut actions, Action::SaveSubs(clone_strings(&self.subs)));
                    }
                    push_action(&mut actions, draw_action());
                } else if c == 'l' {
                    if let Some(sub) = self.selected_sub() {
                        push_action(
                            &mut actions,
                            Action::Send(AppEvent::OpenPostList(sub.clone())),
                        );
                    }
                }
            }
        }
        assert(actions_view(actions@) =~= old(self)@.actions(*event));
        actions
    }
}

} // verus!
