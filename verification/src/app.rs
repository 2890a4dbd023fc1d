//! The navigation authority: which screen is active, and what each intent does.

use vstd::prelude::*;
use crate::action::{
    actions_view, append_actions, draw_action, no_actions, push_action, send_draw, Action,
    ActionView,
};
use crate::component::gallery::{lemma_kept_galleries_wf, result_lists_view};
use crate::component::postdetail::{replies_view, PostDetailComponent, PostDetailView};
use crate::component::postlist::{outcome_view, PostlistComponent, PostlistView};
use crate::component::sublist::{SublistComponent, SublistView};
use crate::event::{Event, Key};
use crate::model::comment::{Comment, CommentView};
use crate::model::post::{Post, PostView};
use crate::text::strings_view;

verus! {

/// An intent sent to the navigation authority.
#[derive(Debug, PartialEq, Eq)]
pub enum AppEvent {
    Quit,
    Draw,
    ToggleShowDebug,
    OpenPostList(String),
    ClosePostList,
    OpenPostDetail(Post),
    ClosePostDetail,
}

/// The mathematical value of an [`AppEvent`].
pub enum AppEventView {
    Quit,
    Draw,
    ToggleShowDebug,
    OpenPostList(Seq<char>),
    ClosePostList,
    OpenPostDetail(PostView),
    ClosePostDetail,
}

impl View for AppEvent {
    type V = AppEventView;

    open spec fn view(&self) -> AppEventView {
        match *self {
            AppEvent::Quit => AppEventView::Quit,
            AppEvent::Draw => AppEventView::Draw,
            AppEvent::ToggleShowDebug => AppEventView::ToggleShowDebug,
            AppEvent::OpenPostList(sub) => AppEventView::OpenPostList(sub@),
            AppEvent::ClosePostList => AppEventView::ClosePostList,
            AppEvent::OpenPostDetail(post) => AppEventView::OpenPostDetail(post@),
            AppEvent::ClosePostDetail => AppEventView::ClosePostDetail,
        }
    }
}

/// The screens. Exactly one is active at a time.
#[derive(Clone, Copy, Debug, PartialEq, Eq, Structural)]
pub enum Screen {
    Sublist,
    Postlist,
    PostDetail,
}

/// The mathematical value of a list of intents.
pub open spec fn events_view(events: Seq<AppEvent>) -> Seq<AppEventView> {
    Seq::new(events.len(), |i: int| events[i]@)
}

/// The outcome of a background fetch, over images of type `I`. A fetch that
/// failed hands in `None` in place of what it was to bring.
#[derive(Debug)]
pub enum Completion<I> {
    /// The items of the feed `sub`.
    Posts { sub: String, posts: Option<Vec<Post>> },
    /// The preview image of the item loaded under `ticket`.
    Preview { ticket: u64, image: Option<I> },
    /// The gallery images of the item loaded under `ticket`, in order.
    Gallery { ticket: u64, images: Vec<Option<I>> },
    /// The gallery images of the parents of the item loaded under `ticket`.
    Crossposts { ticket: u64, galleries: Vec<Vec<Option<I>>> },
    /// The top-level replies to the item loaded under `ticket`.
    Comments { ticket: u64, replies: Option<Vec<Comment>> },
    /// The load made under `ticket` has ended.
    Finished { ticket: u64 },
}

/// The mathematical value of a [`Completion`].
pub enum CompletionView<I> {
    Posts { sub: Seq<char>, posts: Option<Seq<PostView>> },
    Preview { ticket: nat, image: Option<I> },
    Gallery { ticket: nat, images: Seq<Option<I>> },
    Crossposts { ticket: nat, galleries: Seq<Seq<Option<I>>> },
    Comments { ticket: nat, replies: Option<Seq<CommentView>> },
    Finished { ticket: nat },
}

impl<I> View for Completion<I> {
    type V = CompletionView<I>;

    open spec fn view(&self) -> CompletionView<I> {
        match *self {
            Completion::Posts { sub, posts } => CompletionView::Posts {
                sub: sub@,
                posts: outcome_view(posts),
            },
            Completion::Preview { ticket, image } => CompletionView::Preview {
                ticket: ticket as nat,
                image,
            },
            Completion::Gallery { ticket, images } => CompletionView::Gallery {
                ticket: ticket as nat,
                images: images@,
            },
            Completion::Crossposts { ticket, galleries } => CompletionView::Crossposts {
                ticket: ticket as nat,
                galleries: result_lists_view(galleries@),
            },
            Completion::Comments { ticket, replies } => CompletionView::Comments {
                ticket: ticket as nat,
                replies: replies_view(replies),
            },
            Completion::Finished { ticket } => CompletionView::Finished { ticket: ticket as nat },
        }
    }
}

/// The navigation authority with its three screens, over images of type `I`.
#[derive(Debug)]
pub struct App<I> {
    show_debug: bool,
    running: bool,
    current_screen: Screen,
    sublist: SublistComponent,
    postlist: PostlistComponent,
    postdetail: PostDetailComponent<I>,
}

/// The mathematical value of an [`App`].
pub struct AppView<I> {
    /// Whether the debug overlay is shown. While it is, it owns the input.
    pub show_debug: bool,
    /// Whether the loop goes on. It ends with `Quit`.
    pub running: bool,
    /// The active screen.
    pub current_screen: Screen,
    pub sublist: SublistView,
    pub postlist: PostlistView,
    pub postdetail: PostDetailView<I>,
}

impl<I> AppView<I> {
    /// Each screen is well formed.
    pub open spec fn wf(self) -> bool {
        &&& self.sublist.wf()
        &&& self.postlist.wf()
        &&& self.postdetail.wf()
    }

    /// The program as it starts: the feed list over `subs` is active.
    pub open spec fn initial(subs: Seq<Seq<char>>) -> AppView<I> {
        AppView {
            show_debug: false,
            running: true,
            current_screen: Screen::Sublist,
            sublist: SublistView::initial(subs),
            postlist: PostlistView::initial(),
            postdetail: PostDetailView::initial(),
        }
    }

    /// Whether `event` is one of the two keys that are taken before any screen
    /// sees them.
    pub open spec fn is_global(event: Event) -> bool {
        event.key == Key::Char('q') || event.key == Key::Char('`')
    }

    /// The program after the terminal input `event`: only the active screen sees
    /// it, and only if it is no global key and the overlay is hidden.
    pub open spec fn after_input(self, event: Event) -> AppView<I> {
        if !self.running || Self::is_global(event) || self.show_debug {
            self
        } else {
            match self.current_screen {
                Screen::Sublist => AppView { sublist: self.sublist.after(event), ..self },
                Screen::Postlist => AppView { postlist: self.postlist.after(event), ..self },
                Screen::PostDetail => AppView { postdetail: self.postdetail.after(event), ..self },
            }
        }
    }

    /// What the terminal input `event` asks of the surrounding program.
    pub open spec fn input_actions(self, event: Event) -> Seq<ActionView> {
        if !self.running {
            Seq::empty()
        } else if event.key == Key::Char('q') {
            seq![ActionView::Send(AppEventView::Quit)]
        } else if event.key == Key::Char('`') {
            seq![ActionView::Send(AppEventView::ToggleShowDebug)]
        } else if self.show_debug {
            seq![ActionView::Overlay(event.key)]
        } else {
            match self.current_screen {
                Screen::Sublist => self.sublist.actions(event),
                Screen::Postlist => self.postlist.actions(event),
                Screen::PostDetail => self.postdetail.actions(event),
            }
        }
    }

    /// The program after the intent `event`. A navigation intent counts only on
    /// the screen that it leaves; after `Quit` nothing counts.
    pub open spec fn after_intent(self, event: AppEventView) -> AppView<I> {
        if !self.running {
            self
        } else {
            match event {
                AppEventView::Quit => AppView { running: false, ..self },
                AppEventView::Draw => self,
                AppEventView::ToggleShowDebug => AppView { show_debug: !self.show_debug, ..self },
                AppEventView::OpenPostList(sub) => if self.current_screen == Screen::Sublist {
                    AppView {
                        current_screen: Screen::Postlist,
                        postlist: self.postlist.load(sub),
                        ..self
                    }
                } else {
                    self
                },
                AppEventView::ClosePostList => if self.current_screen == Screen::Postlist {
                    AppView { current_screen: Screen::Sublist, ..self }
                } else {
                    self
                },
                AppEventView::OpenPostDetail(post) => if self.current_screen == Screen::Postlist {
                    AppView {
                        current_screen: Screen::PostDetail,
                        postdetail: self.postdetail.load(post),
                        ..self
                    }
                } else {
                    self
                },
                AppEventView::ClosePostDetail => if self.current_screen == Screen::PostDetail {
                    AppView {
                        current_screen: Screen::Postlist,
                        postdetail: self.postdetail.reset(),
                        ..self
                    }
                } else {
                    self
                },
            }
        }
    }

    /// What the intent `event` asks of the surrounding program, in order.
    pub open spec fn intent_actions(self, event: AppEventView) -> Seq<ActionView> {
        if !self.running {
            Seq::empty()
        } else {
            match event {
                AppEventView::Quit => Seq::empty(),
                AppEventView::Draw => seq![ActionView::Render],
                AppEventView::ToggleShowDebug => seq![send_draw()],
                AppEventView::OpenPostList(sub) => if self.current_screen == Screen::Sublist {
                    self.postlist.load_actions(sub) + seq![send_draw()]
                } else {
                    Seq::empty()
                },
                AppEventView::ClosePostList => if self.current_screen == Screen::Postlist {
                    seq![send_draw()]
                } else {
                    Seq::empty()
                },
                AppEventView::OpenPostDetail(post) => if self.current_screen == Screen::Postlist {
                    self.postdetail.load_actions(post) + seq![send_draw()]
                } else {
                    Seq::empty()
                },
                AppEventView::ClosePostDetail => if self.current_screen == Screen::PostDetail {
                    self.postdetail.abort_actions() + seq![send_draw()]
                } else {
                    Seq::empty()
                },
            }
        }
    }

    /// The program after the outcome of a background fetch was handed in.
    pub open spec fn after_completion(self, completion: CompletionView<I>) -> AppView<I> {
        if !self.running {
            self
        } else {
            match completion {
                CompletionView::Posts { sub, posts } => AppView {
                    postlist: self.postlist.posts_loaded(sub, posts),
                    ..self
                },
                CompletionView::Preview { ticket, image } => AppView {
                    postdetail: self.postdetail.preview_loaded(ticket, image),
                    ..self
                },
                CompletionView::Gallery { ticket, images } => AppView {
                    postdetail: self.postdetail.gallery_loaded(ticket, images),
                    ..self
                },
                CompletionView::Crossposts { ticket, galleries } => AppView {
                    postdetail: self.postdetail.crossposts_loaded(ticket, galleries),
                    ..self
                },
                CompletionView::Comments { ticket, replies } => AppView {
                    postdetail: self.postdetail.comments_loaded(ticket, replies),
                    ..self
                },
                CompletionView::Finished { ticket } => AppView {
                    postdetail: self.postdetail.finished(ticket),
                    ..self
                },
            }
        }
    }

    /// What the outcome of a background fetch asks of the surrounding program.
    pub open spec fn completion_actions(self, completion: CompletionView<I>) -> Seq<ActionView> {
        if !self.running {
            Seq::empty()
        } else {
            match completion {
                CompletionView::Posts { sub, posts } => self.postlist.posts_loaded_actions(sub),
                CompletionView::Preview { ticket, image } => self.postdetail.result_actions(ticket),
                CompletionView::Gallery { ticket, images } => self.postdetail.result_actions(ticket),
                CompletionView::Crossposts { ticket, galleries } => self.postdetail.result_actions(
                    ticket,
                ),
                CompletionView::Comments { ticket, replies } => self.postdetail.result_actions(
                    ticket,
                ),
                CompletionView::Finished { ticket } => Seq::empty(),
            }
        }
    }

    /// The program after the intents `events`, taken in order.
    pub open spec fn after_intents(self, events: Seq<AppEventView>) -> AppView<I>
        decreases events.len(),
    {
        if events.len() == 0 {
            self
        } else {
            self.after_intents(events.drop_last()).after_intent(events.last())
        }
    }

    /// What the intents `events` ask of the surrounding program, drawing left
    /// aside.
    pub open spec fn deferred_actions(self, events: Seq<AppEventView>) -> Seq<ActionView>
        decreases events.len(),
    {
        if events.len() == 0 {
            Seq::empty()
        } else if events.last() is Draw {
            self.deferred_actions(events.drop_last())
        } else {
            self.deferred_actions(events.drop_last()) + self.after_intents(
                events.drop_last(),
            ).intent_actions(events.last())
        }
    }

    /// Whether one of the intents `events` is a `Draw` that arrives while the loop
    /// goes on.
    pub open spec fn draw_pending(self, events: Seq<AppEventView>) -> bool
        decreases events.len(),
    {
        events.len() > 0 && (self.draw_pending(events.drop_last()) || (events.last() is Draw
            && self.after_intents(events.drop_last()).running))
    }

    /// What a batch of queued intents asks of the surrounding program: what each
    /// asks apart from drawing, and then one draw for all the `Draw` intents
    /// together, unless the loop has ended.
    pub open spec fn batch_actions(self, events: Seq<AppEventView>) -> Seq<ActionView> {
        if self.draw_pending(events) && self.after_intents(events).running {
            self.deferred_actions(events).push(ActionView::Render)
        } else {
            self.deferred_actions(events)
        }
    }
}

impl<I> View for App<I> {
    type V = AppView<I>;

    closed spec fn view(&self) -> AppView<I> {
        AppView {
            show_debug: self.show_debug,
            running: self.running,
            current_screen: self.current_screen,
            sublist: self.sublist@,
            postlist: self.postlist@,
            postdetail: self.postdetail@,
        }
    }
}

impl<I> App<I> {
    /// The program as it starts, with the feed list over `subs` active.
    pub fn new(subs: Vec<String>) -> (app: App<I>)
        ensures
            app@ == AppView::<I>::initial(strings_view(subs@)),
            app@.wf(),
    {
        App {
            show_debug: false,
            running: true,
            current_screen: Screen::Sublist,
            sublist: SublistComponent::new(subs),
            postlist: PostlistComponent::new(),
            postdetail: PostDetailComponent::new(),
        }
    }

    /// Whether the loop goes on.
    pub fn running(&self) -> (running: bool)
        ensures
            running == self@.running,
    {
        self.running
    }

    /// Whether the debug overlay is shown.
    pub fn show_debug(&self) -> (shown: bool)
        ensures
            shown == self@.show_debug,
    {
        self.show_debug
    }

    /// The active screen.
    pub fn current_screen(&self) -> (screen: Screen)
        ensures
            screen == self@.current_screen,
    {
        self.current_screen
    }

    /// The feed list screen.
    pub fn sublist(&self) -> (screen: &SublistComponent)
        ensures
            screen@ == self@.sublist,
    {
        &self.sublist
    }

    /// The item list screen.
    pub fn postlist(&self) -> (screen: &PostlistComponent)
        ensures
            screen@ == self@.postlist,
    {
        &self.postlist
    }

    /// The detail screen.
    pub fn postdetail(&self) -> (screen: &PostDetailComponent<I>)
        ensures
            screen@ == self@.postdetail,
    {
        &self.postdetail
    }

    /// Records what a draw of the detail screen found: the height of a page, and
    /// how far the content can be scrolled.
    pub fn fit_scroll(&mut self, page_height: u16, max_offset: u16)
        ensures
            final(self)@ == (AppView {
                postdetail: old(self)@.postdetail.scrolled(
                    old(self)@.postdetail.scroll_state.fitted(page_height, max_offset),
                ),
                ..old(self)@
            }),
    {
        self.postdetail.fit_scroll(page_height, max_offset);
    }

    /// Handles one terminal input event. `q` asks to quit and `` ` `` to toggle
    /// the debug overlay, whatever is on screen. Any other event goes to the
    /// overlay while it is shown, and else to the active screen.
    pub fn handle_event(&mut self, event: &Event) -> (actions: Vec<Action>)
        requires
            old(self)@.wf(),
        ensures
            final(self)@ == old(self)@.after_input(*event),
            actions_view(actions@) == old(self)@.input_actions(*event),
            final(self)@.wf(),
    {
        let mut actions = no_actions();
        if !self.running {
            return actions;
        }
        if let Key::Char(c) = event.key {
            if c == 'q' {
                push_action(&mut actions, Action::Send(AppEvent::Quit));
                assert(actions_view(actions@) =~= old(self)@.input_actions(*event));
                return actions;
            }
            if c == '`' {
                push_action(&mut actions, Action::Send(AppEvent::ToggleShowDebug));
                assert(actions_view(actions@) =~= old(self)@.input_actions(*event));
                return actions;
            }
        }
        if self.show_debug {
            push_action(&mut actions, Action::Overlay(event.key));
            assert(actions_view(actions@) =~= old(self)@.input_actions(*event));
            return actions;
        }
        match self.current_screen {
            Screen::Sublist => self.sublist.handle_event(event),
            Screen::Postlist => self.postlist.handle_event(event),
            Screen::PostDetail => self.postdetail.handle_event(event),
        }
    }

    /// Applies one intent from the bus: `Quit` ends the loop, `Draw` asks for a
    /// draw, the toggle flips the overlay, and a navigation intent changes the
    /// active screen if it comes from the screen that it leaves.
    pub fn handle_app_event(&mut self, app_event: AppEvent) -> (actions: Vec<Action>)
        requires
            old(self)@.wf(),
        ensures
            final(self)@ == old(self)@.after_intent(app_event@),
            actions_view(actions@) == old(self)@.intent_actions(app_event@),
            final(self)@.wf(),
    {
        let mut actions = no_actions();
        if !self.running {
            return actions;
        }
        match app_event {
            AppEvent::Quit => {
                self.running = false;
            },
            AppEvent::Draw => {
                push_action(&mut actions, Action::Render);
            },
            AppEvent::ToggleShowDebug => {
                self.show_debug = !self.show_debug;
                push_action(&mut actions, draw_action());
            },
            AppEvent::OpenPostList(sub) => {
                if self.current_screen == Screen::Sublist {
                    let loading = self.postlist.load(sub);
                    append_actions(&mut actions, loading);
                    self.current_screen = Screen::Postlist;
                    push_action(&mut actions, draw_action());
                }
            },
            AppEvent::ClosePostList => {
                if self.current_screen == Screen::Postlist {
                    self.current_screen = Screen::Sublist;
                    push_action(&mut actions, draw_action());
                }
            },
            AppEvent::OpenPostDetail(post) => {
                if self.current_screen == Screen::Postlist {
                    let loading = self.postdetail.load(post);
                    append_actions(&mut actions, loading);
                    self.current_screen = Screen::PostDetail;
                    push_action(&mut actions, draw_action());
                }
            },
            AppEvent::ClosePostDetail => {
                if self.current_screen == Screen::PostDetail {
                    if let Some(ticket) = self.postdetail.state().load_handle() {
                        push_action(&mut actions, Action::Abort(ticket));
                    }
                    self.postdetail.reset();
                    self.current_screen = Screen::Postlist;
                    push_action(&mut actions, draw_action());
                }
            },
        }
        assert(actions_view(actions@) =~= old(self)@.intent_actions(app_event@));
        actions
    }

    /// Hands in the outcome of a background fetch. The screen that asked for it
    /// takes it, whichever screen is active; an outcome that no screen waits for
    /// is dropped.
    pub fn handle_completion(&mut self, completion: Completion<I>) -> (actions: Vec<Action>)
        requires
            old(self)@.wf(),
        ensures
            final(self)@ == old(self)@.after_completion(completion@),
            actions_view(actions@) == old(self)@.completion_actions(completion@),
            final(self)@.wf(),
    {
        if !self.running {
            return no_actions();
        }
        match completion {
            Completion::Posts { sub, posts } => self.postlist.posts_loaded(&sub, posts),
            Completion::Preview { ticket, image } => self.postdetail.preview_loaded(ticket, image),
            Completion::Gallery { ticket, images } => self.postdetail.gallery_loaded(
                ticket,
                images,
            ),
            Completion::Crossposts { ticket, galleries } => self.postdetail.crossposts_loaded(
                ticket,
                galleries,
            ),
            Completion::Comments { ticket, replies } => self.postdetail.comments_loaded(
                ticket,
                replies,
            ),
            Completion::Finished { ticket } => {
                self.postdetail.finished(ticket);
                no_actions()
            },
        }
    }

    /// Applies a batch of intents that were queued on the bus, in order, and
    /// draws at most once for all of them: after the last one, from the state
    /// as it then is, and not at all once the loop has ended.
    pub fn handle_app_events(&mut self, events: Vec<AppEvent>) -> (actions: Vec<Action>)
        requires
            old(self)@.wf(),
        ensures
            final(self)@ == old(self)@.after_intents(events_view(events@)),
            actions_view(actions@) == old(self)@.batch_actions(events_view(events@)),
            final(self)@.wf(),
    {
        let mut actions = no_actions();
        let mut pending = false;
        let ghost all = events@;
        let ghost intents = events_view(all);
        let ghost start = self@;
        assert(intents.take(0) =~= Seq::empty());
        for app_event in it: events
            invariant
                it.seq() == all,
                intents == events_view(all),
                start.wf(),
                self@.wf(),
                self@ == start.after_intents(intents.take(it.index() as int)),
                actions_view(actions@) == start.deferred_actions(intents.take(it.index() as int)),
                pending == start.draw_pending(intents.take(it.index() as int)),
        {
            proof {
                let prefix = intents.take(it.index() + 1);
                assert(prefix.drop_last() =~= intents.take(it.index() as int));
                assert(prefix.last() == app_event@);
            }
            match app_event {
                AppEvent::Draw => {
                    if self.running {
                        pending = true;
                    }
                },
                other => {
                    let more = self.handle_app_event(other);
                    append_actions(&mut actions, more);
                },
            }
        }
        assert(intents.take(intents.len() as int) =~= intents);
        if pending && self.running {
            push_action(&mut actions, Action::Render);
        }
        actions
    }
}

/// Once the loop has ended nothing changes the program and nothing is asked
/// of the surrounding program any more.
pub proof fn lemma_stopped_stays_stopped<I>(
    app: AppView<I>,
    event: Event,
    intent: AppEventView,
    completion: CompletionView<I>,
    batch: Seq<AppEventView>,
)
    requires
        !app.running,
    ensures
        app.after_input(event) == app,
        app.input_actions(event) == Seq::<ActionView>::empty(),
        app.after_intent(intent) == app,
        app.intent_actions(intent) == Seq::<ActionView>::empty(),
        app.after_completion(completion) == app,
        app.completion_actions(completion) == Seq::<ActionView>::empty(),
        app.after_intents(batch) == app,
        app.batch_actions(batch) == Seq::<ActionView>::empty(),
    decreases batch.len(),
{
    if batch.len() > 0 {
        lemma_stopped_stays_stopped(app, event, batch.last(), completion, batch.drop_last());
    }
}

/// On whichever screen, `q` asks to quit and changes nothing; the intent to
/// quit ends the loop and asks for no draw; and whatever arrives afterwards
/// changes nothing and asks for nothing.
pub proof fn lemma_quit_ends_the_loop<I>(
    app: AppView<I>,
    edit: Option<tui_input::InputRequest>,
    later: Seq<AppEventView>,
)
    requires
        app.running,
    ensures
        app.input_actions(Event { key: Key::Char('q'), edit }) == seq![
            ActionView::Send(AppEventView::Quit),
        ],
        app.after_input(Event { key: Key::Char('q'), edit }) == app,
        !app.after_intent(AppEventView::Quit).running,
        app.intent_actions(AppEventView::Quit) == Seq::<ActionView>::empty(),
        app.after_intent(AppEventView::Quit).after_intents(later) == app.after_intent(
            AppEventView::Quit,
        ),
        app.after_intent(AppEventView::Quit).batch_actions(later) == Seq::<ActionView>::empty(),
{
    let stopped = app.after_intent(AppEventView::Quit);
    lemma_stopped_stays_stopped(
        stopped,
        Event { key: Key::Char('q'), edit },
        AppEventView::Quit,
        CompletionView::Finished { ticket: 0 },
        later,
    );
}

/// No intent but `Draw` asks for a draw.
pub proof fn lemma_only_draw_renders<I>(app: AppView<I>, intent: AppEventView)
    requires
        !(intent is Draw),
    ensures
        !app.intent_actions(intent).contains(ActionView::Render),
{
    let actions = app.intent_actions(intent);
    if actions.contains(ActionView::Render) {
        let i = choose|i: int| 0 <= i < actions.len() && actions[i] == ActionView::Render;
        assert(actions[i] == ActionView::Render);
    }
}

/// A batch of intents asks for at most one draw, as its last action, and for
/// none if the loop has ended by the end of the batch.
pub proof fn lemma_batch_draws_once<I>(app: AppView<I>, batch: Seq<AppEventView>)
    ensures
        !app.deferred_actions(batch).contains(ActionView::Render),
        !app.after_intents(batch).running ==> !app.batch_actions(batch).contains(
            ActionView::Render,
        ),
        forall|i: int|
            0 <= i < app.batch_actions(batch).len() && app.batch_actions(batch)[i]
                == ActionView::Render ==> i == app.batch_actions(batch).len() - 1,
    decreases batch.len(),
{
    if batch.len() > 0 {
        lemma_batch_draws_once(app, batch.drop_last());
        let before = app.deferred_actions(batch.drop_last());
        if !(batch.last() is Draw) {
            let more = app.after_intents(batch.drop_last()).intent_actions(batch.last());
            lemma_only_draw_renders(app.after_intents(batch.drop_last()), batch.last());
            let all = before + more;
            if all.contains(ActionView::Render) {
                let i = choose|i: int| 0 <= i < all.len() && all[i] == ActionView::Render;
                if i < before.len() {
                    assert(before[i] == ActionView::Render);
                } else {
                    assert(more[i - before.len()] == ActionView::Render);
                }
            }
        }
    }
    let deferred = app.deferred_actions(batch);
    let actions = app.batch_actions(batch);
    assert forall|i: int| 0 <= i < actions.len() && actions[i] == ActionView::Render implies i
        == actions.len() - 1 by {
        if i < deferred.len() {
            assert(deferred[i] == ActionView::Render);
        }
    }
}

/// The screen changes only as the navigation table says: from the feed list to
/// the item list, from there back or on to the detail screen, and from the
/// detail screen back to the item list.
pub proof fn lemma_navigation_table<I>(app: AppView<I>, intent: AppEventView)
    ensures
        app.after_intent(intent).current_screen != app.current_screen ==> {
            ||| app.current_screen == Screen::Sublist && intent is OpenPostList
                && app.after_intent(intent).current_screen == Screen::Postlist
            ||| app.current_screen == Screen::Postlist && intent is ClosePostList
                && app.after_intent(intent).current_screen == Screen::Sublist
            ||| app.current_screen == Screen::Postlist && intent is OpenPostDetail
                && app.after_intent(intent).current_screen == Screen::PostDetail
            ||| app.current_screen == Screen::PostDetail && intent is ClosePostDetail
                && app.after_intent(intent).current_screen == Screen::Postlist
        },
{
}

/// Every step keeps each screen well formed.
pub proof fn lemma_steps_keep_wf<I>(
    app: AppView<I>,
    event: Event,
    intent: AppEventView,
    completion: CompletionView<I>,
)
    requires
        app.wf(),
    ensures
        app.after_input(event).wf(),
        app.after_intent(intent).wf(),
        app.after_completion(completion).wf(),
{
    if let CompletionView::Crossposts { ticket, galleries } = completion {
        lemma_kept_galleries_wf(galleries);
    }
}

} // verus!
