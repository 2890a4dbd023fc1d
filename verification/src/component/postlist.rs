//! The items of one feed: loading them, and moving through them.
//!
//! The highlight moves as in the list that draws the items
//! (`tui_widget_list::ListState`): it wraps around at both ends.

use vstd::prelude::*;
use crate::action::{
    actions_view, draw_action, no_actions, push_action, send_draw, Action, ActionView,
};
use crate::app::{AppEvent, AppEventView};
use crate::component::sublist::index_view;
use crate::event::{Event, Key};
use crate::model::post::{posts_view, Post, PostView};
use crate::text::{clip, clipped, strings_view, wrap_lines, wrapped};

verus! {

/// What the item list screen holds.
#[derive(Debug)]
pub struct PostlistState {
    loading: bool,
    failed: bool,
    sub: String,
    items: Vec<Post>,
    selected: Option<usize>,
}

/// The mathematical value of a [`PostlistState`].
pub struct PostlistView {
    /// Whether a fetch of the feed's items is under way.
    pub loading: bool,
    /// Whether the last fetch failed.
    pub failed: bool,
    /// The feed shown.
    pub sub: Seq<char>,
    /// The items of the feed, in display order.
    pub items: Seq<PostView>,
    /// The highlighted item.
    pub selected: Option<nat>,
}

impl PostlistView {
    /// An item is highlighted exactly when there is one, and the highlight is on
    /// an item of the list.
    pub open spec fn wf(self) -> bool {
        match self.selected {
            Some(index) => index < self.items.len(),
            None => self.items.len() == 0,
        }
    }

    /// The screen before any feed was opened.
    pub open spec fn initial() -> PostlistView {
        PostlistView {
            loading: false,
            failed: false,
            sub: Seq::empty(),
            items: Seq::empty(),
            selected: None,
        }
    }

    /// Whether a request to load `sub` starts a fetch: it does unless `sub` is the
    /// feed shown or a fetch is under way.
    pub open spec fn loads(self, sub: Seq<char>) -> bool {
        !(self.sub == sub || self.loading)
    }

    /// The screen after a request to load `sub`.
    pub open spec fn load(self, sub: Seq<char>) -> PostlistView {
        if self.loads(sub) {
            PostlistView {
                loading: true,
                failed: false,
                sub,
                items: Seq::empty(),
                selected: None,
            }
        } else {
            self
        }
    }

    /// What a request to load `sub` asks of the surrounding program.
    pub open spec fn load_actions(self, sub: Seq<char>) -> Seq<ActionView> {
        if self.loads(sub) {
            seq![send_draw(), ActionView::FetchPosts(sub)]
        } else {
            Seq::empty()
        }
    }

    /// Whether the screen takes the outcome of a fetch for `sub`: it waits for
    /// one, and for that feed.
    pub open spec fn accepts(self, sub: Seq<char>) -> bool {
        self.loading && self.sub == sub
    }

    /// The screen after the fetch for `sub` ended with `outcome`: the items
    /// fetched, or none if the fetch failed.
    pub open spec fn posts_loaded(self, sub: Seq<char>, outcome: Option<Seq<PostView>>)
        -> PostlistView {
        if self.accepts(sub) {
            let items = match outcome {
                Some(items) => items,
                None => Seq::empty(),
            };
            PostlistView {
                loading: false,
                failed: outcome.is_none(),
                sub: self.sub,
                items,
                selected: if items.len() > 0 {
                    Some(0nat)
                } else {
                    None
                },
            }
        } else {
            self
        }
    }

    /// What the end of the fetch for `sub` asks of the surrounding program.
    pub open spec fn posts_loaded_actions(self, sub: Seq<char>) -> Seq<ActionView> {
        if self.accepts(sub) {
            seq![send_draw()]
        } else {
            Seq::empty()
        }
    }

    /// The highlight moves one item down, and from the last item to the first.
    pub open spec fn select_next(self) -> PostlistView {
        PostlistView {
            selected: match self.selected {
                Some(index) => if index + 1 < self.items.len() {
                    Some(index + 1)
                } else {
                    Some(0nat)
                },
                None => None,
            },
            ..self
        }
    }

    /// The highlight moves one item up, and from the first item to the last.
    pub open spec fn select_previous(self) -> PostlistView {
        PostlistView {
            selected: match self.selected {
                Some(index) => if index > 0 {
                    Some((index - 1) as nat)
                } else {
                    Some((self.items.len() - 1) as nat)
                },
                None => None,
            },
            ..self
        }
    }

    /// The highlight returns to the first item.
    pub open spec fn select_first(self) -> PostlistView {
        PostlistView {
            selected: if self.items.len() > 0 {
                Some(0nat)
            } else {
                None
            },
            ..self
        }
    }

    /// The screen after `event`.
    pub open spec fn after(self, event: Event) -> PostlistView {
        match event.key {
            Key::Char(c) => if c == 'h' {
                self.select_first()
            } else if c == 'j' {
                self.select_next()
            } else if c == 'k' {
                self.select_previous()
            } else {
                self
            },
            _ => self,
        }
    }

    /// What `event` asks of the surrounding program, in order.
    pub open spec fn actions(self, event: Event) -> Seq<ActionView> {
        match event.key {
            Key::Char(c) => if c == 'h' {
                seq![ActionView::Send(AppEventView::ClosePostList)]
            } else if c == 'j' || c == 'k' {
                seq![send_draw()]
            } else if c == 'l' {
                match self.selected {
                    Some(index) => seq![
                        ActionView::Send(AppEventView::OpenPostDetail(self.items[index as int])),
                    ],
                    None => Seq::empty(),
                }
            } else {
                Seq::empty()
            },
            _ => Seq::empty(),
        }
    }
}

impl View for PostlistState {
    type V = PostlistView;

    closed spec fn view(&self) -> PostlistView {
        PostlistView {
            loading: self.loading,
            failed: self.failed,
            sub: self.sub@,
            items: posts_view(self.items@),
            selected: index_view(self.selected),
        }
    }
}

impl PostlistState {
    /// The state before any feed was opened.
    pub fn new() -> (state: PostlistState)
        ensures
            state@ == PostlistView::initial(),
            state@.wf(),
    {
        let state = PostlistState {
            loading: false,
            failed: false,
            sub: String::new(),
            items: Vec::new(),
            selected: None,
        };
        assert(posts_view(state.items@) =~= Seq::empty());
        state
    }

    /// Whether a fetch of the feed's items is under way.
    pub fn loading(&self) -> (loading: bool)
        ensures
            loading == self@.loading,
    {
        self.loading
    }

    /// Whether the last fetch failed.
    pub fn failed(&self) -> (failed: bool)
        ensures
            failed == self@.failed,
    {
        self.failed
    }

    /// The feed shown.
    pub fn sub(&self) -> (sub: &String)
        ensures
            sub@ == self@.sub,
    {
        &self.sub
    }

    /// The items of the feed, in display order.
    pub fn items(&self) -> (items: &Vec<Post>)
        ensures
            posts_view(items@) == self@.items,
    {
        &self.items
    }

    /// The position of the highlighted item.
    pub fn selected(&self) -> (selected: Option<usize>)
        ensures
            index_view(selected) == self@.selected,
    {
        self.selected
    }
}

/// The item list screen.
#[derive(Debug)]
pub struct PostlistComponent {
    state: PostlistState,
}

impl View for PostlistComponent {
    type V = PostlistView;

    closed spec fn view(&self) -> PostlistView {
        self.state@
    }
}

impl PostlistComponent {
    /// The screen before any feed was opened.
    pub fn new() -> (screen: PostlistComponent)
        ensures
            screen@ == PostlistView::initial(),
            screen@.wf(),
    {
        PostlistComponent { state: PostlistState::new() }
    }

    /// What the screen holds.
    pub fn state(&self) -> (state: &PostlistState)
        ensures
            state@ == self@,
    {
        &self.state
    }

    /// Asks for the items of `sub`. Nothing happens if `sub` is the feed shown or a
    /// fetch is under way. Otherwise the screen turns to `sub`, empties, and
    /// asks for a redraw and for the fetch.
    pub fn load(&mut self, sub: String) -> (actions: Vec<Action>)
        requires
            old(self)@.wf(),
        ensures
            final(self)@ == old(self)@.load(sub@),
            actions_view(actions@) == old(self)@.load_actions(sub@),
            final(self)@.wf(),
    {
        let mut actions = no_actions();
        if self.state.sub == sub || self.state.loading {
            return actions;
        }
        self.state.sub = sub.clone();
        self.state.loading = true;
        self.state.failed = false;
        self.state.items.clear();
        self.state.selected = None;
        assert(posts_view(self.state.items@) =~= Seq::empty());
        push_action(&mut actions, draw_action());
        push_action(&mut actions, Action::FetchPosts(sub));
        assert(actions_view(actions@) =~= old(self)@.load_actions(sub@));
        actions
    }

    /// Takes the outcome of the fetch for `sub`: the items, or `None` if the fetch
    /// failed. An outcome that the screen does not wait for is dropped. Otherwise
    /// the items replace the list, the first one is highlighted, and a redraw is
    /// asked for; after a failure the list is empty.
    pub fn posts_loaded(&mut self, sub: &String, outcome: Option<Vec<Post>>) -> (actions: Vec<
        Action,
    >)
        requires
            old(self)@.wf(),
        ensures
            final(self)@ == old(self)@.posts_loaded(sub@, outcome_view(outcome)),
            actions_view(actions@) == old(self)@.posts_loaded_actions(sub@),
            final(self)@.wf(),
    {
        let mut actions = no_actions();
        if !(self.state.loading && self.state.sub == *sub) {
            return actions;
        }
        self.state.loading = false;
        match outcome {
            Some(items) => {
                self.state.failed = false;
                self.state.items = items;
            },
            None => {
                self.state.failed = true;
                self.state.items = Vec::new();
                assert(posts_view(self.state.items@) =~= Seq::empty());
            },
        }
        self.state.selected = if self.state.items.len() > 0 {
            Some(0)
        } else {
            None
        };
        push_action(&mut actions, draw_action());
        assert(actions_view(actions@) =~= old(self)@.posts_loaded_actions(sub@));
        actions
    }

    /// Moves the highlight one item down, and from the last item to the first.
    pub fn select_next(&mut self)
        requires
            old(self)@.wf(),
        ensures
            final(self)@ == old(self)@.select_next(),
            final(self)@.wf(),
    {
        if let Some(index) = self.state.selected {
            assert(index < self.state.items.len());
            if index + 1 < self.state.items.len() {
                self.state.selected = Some(index + 1);
            } else {
                self.state.selected = Some(0);
            }
        }
    }

    /// Moves the highlight one item up, and from the first item to the last.
    pub fn select_previous(&mut self)
        requires
            old(self)@.wf(),
        ensures
            final(self)@ == old(self)@.select_previous(),
            final(self)@.wf(),
    {
        if let Some(index) = self.state.selected {
            assert(index < self.state.items.len());
            if index > 0 {
                self.state.selected = Some(index - 1);
            } else {
                self.state.selected = Some(self.state.items.len() - 1);
            }
        }
    }

    /// Puts the highlight back on the first item.
    pub fn select_first(&mut self)
        requires
            old(self)@.wf(),
        ensures
            final(self)@ == old(self)@.select_first(),
            final(self)@.wf(),
    {
        self.state.selected = if self.state.items.len() > 0 {
            Some(0)
        } else {
            None
        };
    }

    /// The highlighted item.
    pub fn selected_item(&self) -> (item: Option<&Post>)
        requires
            self@.wf(),
        ensures
            match self@.selected {
                Some(index) => item.is_some() && item.unwrap()@ == self@.items[index as int],
                None => item.is_none(),
            },
    {
        match self.state.selected {
            Some(index) => {
                assert(index < self.state.items.len());
                Some(&self.state.items[index])
            },
            None => None,
        }
    }

    /// Handles one input event and returns what it asks of the surrounding
    /// program: `j` and `k` move the highlight, `l` opens the highlighted item,
    /// `h` closes the screen.
    pub fn handle_event(&mut self, event: &Event) -> (actions: Vec<Action>)
        requires
            old(self)@.wf(),
        ensures
            final(self)@ == old(self)@.after(*event),
            actions_view(actions@) == old(self)@.actions(*event),
            final(self)@.wf(),
    {
        let mut actions = no_actions();
        if let Key::Char(c) = event.key {
            if c == 'h' {
                self.select_first();
                push_action(&mut actions, Action::Send(AppEvent::ClosePostList));
            } else if c == 'j' {
                self.select_next();
                push_action(&mut actions, draw_action());
            } else if c == 'k' {
                self.select_previous();
                push_action(&mut actions, draw_action());
            } else if c == 'l' {
                if let Some(item) = self.selected_item() {
                    push_action(&mut actions, Action::Send(AppEvent::OpenPostDetail(item.clone())));
                }
            }
        }
        assert(actions_view(actions@) =~= old(self)@.actions(*event));
        actions
    }
}

/// One item as the list shows it in a box of a given width.
#[derive(Debug, PartialEq, Eq)]
pub struct PostItem {
    pub username: String,
    pub title_lines: Vec<String>,
    pub body_lines: Vec<String>,
    /// Whether the item is the highlighted one.
    pub highlighted: bool,
    pub score: i64,
    pub num_comments: u64,
}

/// The number of rows of a box with `title_lines` lines of title and
/// `body_lines` lines of body: the lines, a blank row between them and the
/// border; held at the largest machine word.
pub open spec fn item_height(title_lines: nat, body_lines: nat) -> nat {
    if title_lines + 1 + body_lines + 2 > usize::MAX {
        usize::MAX as nat
    } else {
        title_lines + 1 + body_lines + 2
    }
}

impl PostItem {
    /// Lays `post` out for a box `width` columns wide: the title wrapped, and the
    /// body wrapped and cut to four lines.
    pub fn new(post: &Post, width: usize) -> (item: PostItem)
        ensures
            item.username@ == post@.author,
            strings_view(item.title_lines@) == wrapped(post@.title, width as nat),
            strings_view(item.body_lines@) == clipped(wrapped(post@.body, width as nat)),
            !item.highlighted,
            item.score == post@.score,
            item.num_comments == post@.num_comments,
    {
        PostItem {
            username: post.author.clone(),
            title_lines: wrap_lines(post.title.as_str(), width),
            body_lines: clip(wrap_lines(post.body.as_str(), width)),
            highlighted: false,
            score: post.score,
            num_comments: post.num_comments,
        }
    }

    /// The number of rows that the box takes.
    pub fn height(&self) -> (rows: usize)
        ensures
            rows as nat == item_height(self.title_lines@.len(), self.body_lines@.len()),
    {
        self.title_lines.len().saturating_add(1).saturating_add(
            self.body_lines.len(),
        ).saturating_add(2)
    }

    /// Marks the item as the highlighted one.
    pub fn set_highlighted(&mut self)
        ensures
            final(self).highlighted,
            final(self).username == old(self).username,
            final(self).title_lines == old(self).title_lines,
            final(self).body_lines == old(self).body_lines,
            final(self).score == old(self).score,
            final(self).num_comments == old(self).num_comments,
    {
        self.highlighted = true;
    }
}

/// The mathematical value of the outcome of a fetch of items.
pub open spec fn outcome_view(outcome: Option<Vec<Post>>) -> Option<Seq<PostView>> {
    match outcome {
        Some(items) => Some(posts_view(items@)),
        None => None,
    }
}

/// Asking twice in a row for the same feed starts at most one fetch: after the
/// first request the second changes nothing and asks for nothing, and the first
/// asks for exactly one fetch if it asks for any.
pub proof fn lemma_load_is_idempotent(screen: PostlistView, sub: Seq<char>)
    ensures
        screen.load(sub).load(sub) == screen.load(sub),
        screen.load(sub).load_actions(sub) == Seq::<ActionView>::empty(),
        screen.loads(sub) ==> screen.load_actions(sub) == seq![
            send_draw(),
            ActionView::FetchPosts(sub),
        ],
        !screen.loads(sub) ==> screen.load_actions(sub) == Seq::<ActionView>::empty(),
{
}

/// While a fetch is under way no request starts another one, whatever feed it
/// names.
pub proof fn lemma_one_fetch_at_a_time(screen: PostlistView, sub: Seq<char>)
    requires
        screen.loading,
    ensures
        screen.load(sub) == screen,
        screen.load_actions(sub) == Seq::<ActionView>::empty(),
{
}

/// The highlight is on an item of the list after every step of the screen.
pub proof fn lemma_selection_stays_valid(
    screen: PostlistView,
    event: Event,
    sub: Seq<char>,
    outcome: Option<Seq<PostView>>,
)
    requires
        screen.wf(),
    ensures
        screen.after(event).wf(),
        screen.load(sub).wf(),
        screen.posts_loaded(sub, outcome).wf(),
{
}

} // verus!
