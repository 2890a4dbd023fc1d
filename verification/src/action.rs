//! What a screen asks of the program around it after it has handled an event.

use vstd::prelude::*;
use crate::app::{AppEvent, AppEventView};
use crate::event::Key;
use crate::text::{optional_strings_view, strings_view};

verus! {

/// The fetches that make up the load of one item's detail screen.
#[derive(Debug, PartialEq, Eq)]
pub struct LoadPlan {
    /// Identifies this load. Results are handed back under it.
    pub ticket: u64,
    /// The feed of the item.
    pub sub: String,
    /// The item whose replies are fetched.
    pub post_id: String,
    /// The address of the preview image, if the item has one.
    pub preview_url: Option<String>,
    /// The addresses of the item's gallery images, if it has a gallery.
    pub gallery_urls: Option<Vec<String>>,
    /// For each parent item that has a gallery, the addresses of its images.
    pub crosspost_gallery_urls: Vec<Vec<String>>,
}

/// The mathematical value of a [`LoadPlan`].
pub struct LoadPlanView {
    pub ticket: nat,
    pub sub: Seq<char>,
    pub post_id: Seq<char>,
    pub preview_url: Option<Seq<char>>,
    pub gallery_urls: Option<Seq<Seq<char>>>,
    pub crosspost_gallery_urls: Seq<Seq<Seq<char>>>,
}

/// The mathematical value of an optional string.
pub open spec fn optional_string_view(text: Option<String>) -> Option<Seq<char>> {
    match text {
        Some(text) => Some(text@),
        None => None,
    }
}

/// The mathematical value of a list of lists of strings.
pub open spec fn string_lists_view(lists: Seq<Vec<String>>) -> Seq<Seq<Seq<char>>> {
    Seq::new(lists.len(), |i: int| strings_view(lists[i]@))
}

impl View for LoadPlan {
    type V = LoadPlanView;

    open spec fn view(&self) -> LoadPlanView {
        LoadPlanView {
            ticket: self.ticket as nat,
            sub: self.sub@,
            post_id: self.post_id@,
            preview_url: optional_string_view(self.preview_url),
            gallery_urls: optional_strings_view(self.gallery_urls),
            crosspost_gallery_urls: string_lists_view(self.crosspost_gallery_urls@),
        }
    }
}

/// One thing for the surrounding program to do. A handler returns these in the
/// order in which they are to be done.
#[derive(Debug, PartialEq, Eq)]
pub enum Action {
    /// Put the intent on the bus of the navigation authority.
    Send(AppEvent),
    /// Draw the active screen, or the debug overlay while it is shown.
    Render,
    /// Hand the key to the debug overlay.
    Overlay(Key),
    /// Persist the list of feeds.
    SaveSubs(Vec<String>),
    /// Fetch the items of the feed in the background.
    FetchPosts(String),
    /// Run the fetches of the plan in the background, under one supervising task.
    FetchDetail(LoadPlan),
    /// Cancel the background load that was started under the ticket.
    Abort(u64),
    /// Open the address in an external viewer.
    OpenUrl(String),
}

/// The mathematical value of an [`Action`].
pub enum ActionView {
    Send(AppEventView),
    Render,
    Overlay(Key),
    SaveSubs(Seq<Seq<char>>),
    FetchPosts(Seq<char>),
    FetchDetail(LoadPlanView),
    Abort(nat),
    OpenUrl(Seq<char>),
}

impl View for Action {
    type V = ActionView;

    open spec fn view(&self) -> ActionView {
        match *self {
            Action::Send(event) => ActionView::Send(event@),
            Action::Render => ActionView::Render,
            Action::Overlay(key) => ActionView::Overlay(key),
            Action::SaveSubs(subs) => ActionView::SaveSubs(strings_view(subs@)),
            Action::FetchPosts(sub) => ActionView::FetchPosts(sub@),
            Action::FetchDetail(plan) => ActionView::FetchDetail(plan@),
            Action::Abort(ticket) => ActionView::Abort(ticket as nat),
            Action::OpenUrl(url) => ActionView::OpenUrl(url@),
        }
    }
}

/// The mathematical value of a list of actions.
pub open spec fn actions_view(actions: Seq<Action>) -> Seq<ActionView> {
    Seq::new(actions.len(), |i: int| actions[i]@)
}

/// The one action that asks for a redraw.
pub open spec fn send_draw() -> ActionView {
    ActionView::Send(AppEventView::Draw)
}

/// No action.
pub fn no_actions() -> (actions: Vec<Action>)
    ensures
        actions_view(actions@) == Seq::<ActionView>::empty(),
{
    let actions: Vec<Action> = Vec::new();
    assert(actions_view(actions@) =~= Seq::<ActionView>::empty());
    actions
}

/// The request for a redraw.
pub fn draw_action() -> (action: Action)
    ensures
        action@ == send_draw(),
{
    Action::Send(AppEvent::Draw)
}

/// Adds `action` at the end of `actions`.
pub fn push_action(actions: &mut Vec<Action>, action: Action)
    ensures
        actions_view(final(actions)@) == actions_view(old(actions)@).push(action@),
{
    actions.push(action);
    assert(actions_view(actions@) =~= actions_view(old(actions)@).push(action@));
}

/// Adds `more` at the end of `actions`.
pub fn append_actions(actions: &mut Vec<Action>, more: Vec<Action>)
    ensures
        actions_view(final(actions)@) == actions_view(old(actions)@) + actions_view(more@),
{
    let mut more = more;
    let ghost added = more@;
    actions.append(&mut more);
    assert(actions_view(actions@) =~= actions_view(old(actions)@) + actions_view(added));
}

} // verus!
