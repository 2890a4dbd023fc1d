//! One item in full: its media and replies, loaded piece by piece.

use vstd::prelude::*;
use crate::action::{
    actions_view, draw_action, no_actions, push_action, send_draw, string_lists_view, Action,
    ActionView, LoadPlan, LoadPlanView,
};
use crate::app::{AppEvent, AppEventView};
use crate::component::gallery::{
    any_missing, decoded, galleries_view, galleries_wf, keep_decoded, keep_galleries,
    kept_galleries, result_lists_view, step_galleries, stepped_galleries, Gallery, GalleryView,
};
use crate::component::scroll::ScrollState;
use crate::event::{Event, Key};
use crate::model::comment::{
    comments_view, flatten_all, flatten_forest, listing_view, Comment, CommentView,
};
use crate::model::post::{posts_view, Post, PostView};
use crate::text::{clone_optional_strings, clone_strings, strings_view};

verus! {

/// What the detail screen holds, over images of type `I`.
#[derive(Debug)]
pub struct PostDetailState<I> {
    post: Post,
    scroll_state: ScrollState,
    preview_image: Option<I>,
    medias: Option<Gallery<I>>,
    crosspost_parents_medias: Option<Vec<Gallery<I>>>,
    loading_comment: bool,
    comments: Vec<(usize, Comment)>,
    load_handle: Option<u64>,
    issued: u64,
    preview_failed: bool,
    medias_failed: bool,
    crosspost_medias_failed: bool,
    comments_failed: bool,
}

/// The mathematical value of a [`PostDetailState`].
pub struct PostDetailView<I> {
    /// The item shown; the empty item while the screen is closed.
    pub post: PostView,
    /// The scroll position.
    pub scroll_state: ScrollState,
    /// The preview image, once it has arrived.
    pub preview_image: Option<I>,
    /// The item's own gallery, once it has arrived.
    pub medias: Option<GalleryView<I>>,
    /// The galleries of the parent items, once they have arrived.
    pub crosspost_parents_medias: Option<Seq<GalleryView<I>>>,
    /// Whether the replies are still being fetched.
    pub loading_comment: bool,
    /// The replies in pre-order, each with its depth.
    pub comments: Seq<(nat, CommentView)>,
    /// The ticket of the load that may still write to the screen.
    pub load_handle: Option<nat>,
    /// The ticket given out last.
    pub issued: nat,
    /// Whether the preview image could not be had.
    pub preview_failed: bool,
    /// Whether an image of the item's gallery could not be had.
    pub medias_failed: bool,
    /// Whether an image of a parent's gallery could not be had.
    pub crosspost_medias_failed: bool,
    /// Whether the replies could not be had.
    pub comments_failed: bool,
}

/// The ticket given out after `issued`. Tickets are machine words: after the
/// largest comes zero.
pub open spec fn next_ticket(issued: nat) -> nat {
    if issued >= u64::MAX {
        0
    } else {
        issued + 1
    }
}

/// The address of the highest resolution of an item's preview image.
pub open spec fn preview_url(post: PostView) -> Option<Seq<char>> {
    match post.preview_image_urls {
        Some(urls) => if urls.len() > 0 {
            Some(urls.last())
        } else {
            None
        },
        None => None,
    }
}

/// For each of `parents` that has a gallery, the addresses of its images.
pub open spec fn parent_galleries(parents: Seq<PostView>) -> Seq<Seq<Seq<char>>>
    decreases parents.len(),
{
    if parents.len() == 0 {
        Seq::empty()
    } else {
        match parents.last().galleries {
            Some(urls) => parent_galleries(parents.drop_last()).push(urls),
            None => parent_galleries(parents.drop_last()),
        }
    }
}

/// The fetches that load `post` under `ticket`.
pub open spec fn plan_for(post: PostView, ticket: nat) -> LoadPlanView {
    LoadPlanView {
        ticket,
        sub: post.subreddit,
        post_id: post.id,
        preview_url: preview_url(post),
        gallery_urls: post.galleries,
        crosspost_gallery_urls: parent_galleries(post.crosspost_parent),
    }
}

/// The address under which an item is found in a browser.
pub open spec fn address(post: PostView) -> Seq<char> {
    "https://www.reddit.com/r/"@ + post.subreddit + "/comments/"@ + post.id
}

impl<I> PostDetailView<I> {
    /// Galleries show one of their images, and a load that may still write is the
    /// one started last.
    pub open spec fn wf(self) -> bool {
        &&& self.medias matches Some(gallery) ==> gallery.wf()
        &&& self.crosspost_parents_medias matches Some(galleries) ==> galleries_wf(galleries)
        &&& self.load_handle matches Some(ticket) ==> ticket == self.issued
        &&& self.issued <= u64::MAX
    }

    /// The screen while it shows no item: nothing loaded, nothing loading,
    /// scrolled to the top.
    pub open spec fn cleared(scroll_state: ScrollState, issued: nat) -> PostDetailView<I> {
        PostDetailView {
            post: PostView::empty(),
            scroll_state: scroll_state.to_top(),
            preview_image: None,
            medias: None,
            crosspost_parents_medias: None,
            loading_comment: false,
            comments: Seq::empty(),
            load_handle: None,
            issued,
            preview_failed: false,
            medias_failed: false,
            crosspost_medias_failed: false,
            comments_failed: false,
        }
    }

    /// The screen as it starts.
    pub open spec fn initial() -> PostDetailView<I> {
        Self::cleared(ScrollState::top(), 0)
    }

    /// Whether a request to load `post` starts a load: it does unless `post` is
    /// the item shown.
    pub open spec fn loads(self, post: PostView) -> bool {
        post.id != self.post.id
    }

    /// The request to cancel the load that may still write, if there is one.
    pub open spec fn abort_actions(self) -> Seq<ActionView> {
        match self.load_handle {
            Some(ticket) => seq![ActionView::Abort(ticket)],
            None => Seq::empty(),
        }
    }

    /// The screen after a request to load `post`: it shows `post` from the top
    /// with nothing of any other item left, and waits for the load under a new
    /// ticket.
    pub open spec fn load(self, post: PostView) -> PostDetailView<I> {
        if self.loads(post) {
            PostDetailView {
                post,
                loading_comment: true,
                load_handle: Some(next_ticket(self.issued)),
                ..Self::cleared(self.scroll_state, next_ticket(self.issued))
            }
        } else {
            self
        }
    }

    /// What a request to load `post` asks of the surrounding program: to cancel
    /// the load under way, to redraw, and to run the fetches for `post`.
    pub open spec fn load_actions(self, post: PostView) -> Seq<ActionView> {
        if self.loads(post) {
            self.abort_actions() + seq![
                send_draw(),
                ActionView::FetchDetail(plan_for(post, next_ticket(self.issued))),
            ]
        } else {
            Seq::empty()
        }
    }

    /// Whether the screen takes results handed in under `ticket`: only those of
    /// the load started last, while it may still write.
    pub open spec fn accepts(self, ticket: nat) -> bool {
        self.load_handle == Some(ticket)
    }

    /// What a result handed in under `ticket` asks of the surrounding program.
    pub open spec fn result_actions(self, ticket: nat) -> Seq<ActionView> {
        if self.accepts(ticket) {
            seq![send_draw()]
        } else {
            Seq::empty()
        }
    }

    /// The screen after the preview fetch under `ticket` ended with `image`, or
    /// with `None` if it failed.
    pub open spec fn preview_loaded(self, ticket: nat, image: Option<I>) -> PostDetailView<I> {
        if self.accepts(ticket) {
            PostDetailView { preview_image: image, preview_failed: image.is_none(), ..self }
        } else {
            self
        }
    }

    /// The screen after the gallery fetch under `ticket` ended with `results`, one
    /// for each image in order.
    pub open spec fn gallery_loaded(self, ticket: nat, results: Seq<Option<I>>) -> PostDetailView<
        I,
    > {
        if self.accepts(ticket) {
            PostDetailView {
                medias: if decoded(results).len() > 0 {
                    Some(GalleryView::starting(decoded(results)))
                } else {
                    None
                },
                medias_failed: decoded(results).len() < results.len(),
                ..self
            }
        } else {
            self
        }
    }

    /// The screen after the fetch of the parents' galleries under `ticket` ended
    /// with `results`, one list for each parent with a gallery.
    pub open spec fn crossposts_loaded(self, ticket: nat, results: Seq<Seq<Option<I>>>)
        -> PostDetailView<I> {
        if self.accepts(ticket) {
            PostDetailView {
                crosspost_parents_medias: Some(kept_galleries(results)),
                crosspost_medias_failed: any_missing(results),
                ..self
            }
        } else {
            self
        }
    }

    /// The screen after the fetch of the replies under `ticket` ended with the
    /// top-level replies `outcome`, or with `None` if it failed.
    pub open spec fn comments_loaded(self, ticket: nat, outcome: Option<Seq<CommentView>>)
        -> PostDetailView<I> {
        if self.accepts(ticket) {
            PostDetailView {
                loading_comment: false,
                comments: match outcome {
                    Some(replies) => flatten_forest(replies, 0),
                    None => Seq::empty(),
                },
                comments_failed: outcome.is_none(),
                ..self
            }
        } else {
            self
        }
    }

    /// The screen after the load under `ticket` has ended.
    pub open spec fn finished(self, ticket: nat) -> PostDetailView<I> {
        if self.accepts(ticket) {
            PostDetailView { load_handle: None, ..self }
        } else {
            self
        }
    }

    /// The screen after it was closed: no item, nothing loaded, at the top.
    pub open spec fn reset(self) -> PostDetailView<I> {
        Self::cleared(self.scroll_state, self.issued)
    }

    /// What closing asks of the surrounding program.
    pub open spec fn close_actions(self) -> Seq<ActionView> {
        self.abort_actions() + seq![ActionView::Send(AppEventView::ClosePostDetail)]
    }

    /// The screen after every gallery, the item's own and each parent's, has
    /// taken one step, forward or back.
    pub open spec fn cycle(self, forward: bool) -> PostDetailView<I> {
        PostDetailView {
            medias: match self.medias {
                Some(gallery) => Some(gallery.step(forward)),
                None => None,
            },
            crosspost_parents_medias: match self.crosspost_parents_medias {
                Some(galleries) => Some(stepped_galleries(galleries, forward)),
                None => None,
            },
            ..self
        }
    }

    /// The screen scrolled to `scroll_state`.
    pub open spec fn scrolled(self, scroll_state: ScrollState) -> PostDetailView<I> {
        PostDetailView { scroll_state, ..self }
    }

    /// The screen after `event`.
    pub open spec fn after(self, event: Event) -> PostDetailView<I> {
        match event.key {
            Key::Char(c) => if c == 'h' {
                self.reset()
            } else if c == 'j' {
                self.scrolled(self.scroll_state.down())
            } else if c == 'k' {
                self.scrolled(self.scroll_state.up())
            } else if c == 'J' {
                self.scrolled(self.scroll_state.page_down())
            } else if c == 'K' {
                self.scrolled(self.scroll_state.page_up())
            } else if c == '[' {
                self.cycle(false)
            } else if c == ']' {
                self.cycle(true)
            } else {
                self
            },
            _ => self,
        }
    }

    /// What `event` asks of the surrounding program, in order.
    pub open spec fn actions(self, event: Event) -> Seq<ActionView> {
        match event.key {
            Key::Char(c) => if c == 'o' {
                seq![ActionView::OpenUrl(address(self.post))]
            } else if c == 'h' {
                self.close_actions()
            } else if c == 'j' || c == 'k' || c == 'J' || c == 'K' || c == '[' || c == ']' {
                seq![send_draw()]
            } else {
                Seq::empty()
            },
            _ => Seq::empty(),
        }
    }
}

/// The mathematical value of an optional ticket.
pub open spec fn ticket_view(ticket: Option<u64>) -> Option<nat> {
    match ticket {
        Some(ticket) => Some(ticket as nat),
        None => None,
    }
}

/// The mathematical value of an optional gallery.
pub open spec fn optional_gallery_view<I>(gallery: Option<Gallery<I>>) -> Option<GalleryView<I>> {
    match gallery {
        Some(gallery) => Some(gallery@),
        None => None,
    }
}

/// The mathematical value of an optional list of galleries.
pub open spec fn optional_galleries_view<I>(galleries: Option<Vec<Gallery<I>>>) -> Option<
    Seq<GalleryView<I>>,
> {
    match galleries {
        Some(galleries) => Some(galleries_view(galleries@)),
        None => None,
    }
}

/// The mathematical value of the outcome of a fetch of replies.
pub open spec fn replies_view(outcome: Option<Vec<Comment>>) -> Option<Seq<CommentView>> {
    match outcome {
        Some(replies) => Some(comments_view(replies@)),
        None => None,
    }
}

impl<I> View for PostDetailState<I> {
    type V = PostDetailView<I>;

    closed spec fn view(&self) -> PostDetailView<I> {
        PostDetailView {
            post: self.post@,
            scroll_state: self.scroll_state,
            preview_image: self.preview_image,
            medias: optional_gallery_view(self.medias),
            crosspost_parents_medias: optional_galleries_view(self.crosspost_parents_medias),
            loading_comment: self.loading_comment,
            comments: listing_view(self.comments@),
            load_handle: ticket_view(self.load_handle),
            issued: self.issued as nat,
            preview_failed: self.preview_failed,
            medias_failed: self.medias_failed,
            crosspost_medias_failed: self.crosspost_medias_failed,
            comments_failed: self.comments_failed,
        }
    }
}

impl<I> PostDetailState<I> {
    /// The state of a screen that shows no item.
    pub fn new() -> (state: PostDetailState<I>)
        ensures
            state@ == PostDetailView::<I>::initial(),
            state@.wf(),
    {
        let state = PostDetailState {
            post: Post::default(),
            scroll_state: ScrollState::new(),
            preview_image: None,
            medias: None,
            crosspost_parents_medias: None,
            loading_comment: false,
            comments: Vec::new(),
            load_handle: None,
            issued: 0,
            preview_failed: false,
            medias_failed: false,
            crosspost_medias_failed: false,
            comments_failed: false,
        };
        assert(listing_view(state.comments@) =~= Seq::empty());
        state
    }

    /// The item shown.
    pub fn post(&self) -> (post: &Post)
        ensures
            post@ == self@.post,
    {
        &self.post
    }

    /// The scroll position.
    pub fn scroll_state(&self) -> (scroll_state: ScrollState)
        ensures
            scroll_state == self@.scroll_state,
    {
        self.scroll_state
    }

    /// The preview image, once it has arrived.
    pub fn preview_image(&self) -> (image: Option<&I>)
        ensures
            match self@.preview_image {
                Some(held) => image == Some(&held),
                None => image.is_none(),
            },
    {
        self.preview_image.as_ref()
    }

    /// The item's own gallery, once it has arrived.
    pub fn medias(&self) -> (gallery: Option<&Gallery<I>>)
        ensures
            match self@.medias {
                Some(held) => gallery.is_some() && gallery.unwrap()@ == held,
                None => gallery.is_none(),
            },
    {
        self.medias.as_ref()
    }

    /// The galleries of the parent items, once they have arrived.
    pub fn crosspost_parents_medias(&self) -> (galleries: Option<&Vec<Gallery<I>>>)
        ensures
            match self@.crosspost_parents_medias {
                Some(held) => galleries.is_some() && galleries_view(galleries.unwrap()@) == held,
                None => galleries.is_none(),
            },
    {
        self.crosspost_parents_medias.as_ref()
    }

    /// Whether the replies are still being fetched.
    pub fn loading_comment(&self) -> (loading: bool)
        ensures
            loading == self@.loading_comment,
    {
        self.loading_comment
    }

    /// The replies in pre-order, each with its depth.
    pub fn comments(&self) -> (comments: &Vec<(usize, Comment)>)
        ensures
            listing_view(comments@) == self@.comments,
    {
        &self.comments
    }

    /// The ticket of the load that may still write to the screen.
    pub fn load_handle(&self) -> (ticket: Option<u64>)
        ensures
            ticket_view(ticket) == self@.load_handle,
    {
        self.load_handle
    }

    /// Whether the preview image could not be had.
    pub fn preview_failed(&self) -> (failed: bool)
        ensures
            failed == self@.preview_failed,
    {
        self.preview_failed
    }

    /// Whether an image of the item's gallery could not be had.
    pub fn medias_failed(&self) -> (failed: bool)
        ensures
            failed == self@.medias_failed,
    {
        self.medias_failed
    }

    /// Whether an image of a parent's gallery could not be had.
    pub fn crosspost_medias_failed(&self) -> (failed: bool)
        ensures
            failed == self@.crosspost_medias_failed,
    {
        self.crosspost_medias_failed
    }

    /// Whether the replies could not be had.
    pub fn comments_failed(&self) -> (failed: bool)
        ensures
            failed == self@.comments_failed,
    {
        self.comments_failed
    }
}

/// Lists the fetches that load `post` under `ticket`.
pub fn plan(post: &Post, ticket: u64) -> (plan: LoadPlan)
    ensures
        plan@ == plan_for(post@, ticket as nat),
{
    let preview_url = match &post.preview_image_urls {
        Some(urls) => if urls.len() > 0 {
            Some(urls[urls.len() - 1].clone())
        } else {
            None
        },
        None => None,
    };
    let mut crosspost_gallery_urls: Vec<Vec<String>> = Vec::new();
    let ghost parents = post@.crosspost_parent;
    proof {
        post.lemma_view_parents();
        assert(parents.take(0) =~= Seq::empty());
        assert(string_lists_view(crosspost_gallery_urls@) =~= Seq::empty());
    }
    let mut i: usize = 0;
    while i < post.crosspost_parent.len()
        invariant
            i <= post.crosspost_parent.len(),
            parents == posts_view(post.crosspost_parent@),
            string_lists_view(crosspost_gallery_urls@) == parent_galleries(parents.take(i as int)),
        decreases post.crosspost_parent.len() - i,
    {
        let ghost before = crosspost_gallery_urls@;
        proof {
            let prefix = parents.take(i as int + 1);
            assert(prefix.drop_last() =~= parents.take(i as int));
            assert(prefix.last() == post.crosspost_parent@[i as int]@);
        }
        if let Some(urls) = &post.crosspost_parent[i].galleries {
            let copy = clone_strings(urls);
            crosspost_gallery_urls.push(copy);
            assert(string_lists_view(crosspost_gallery_urls@) =~= string_lists_view(before).push(
                strings_view(urls@),
            ));
        }
        i += 1;
    }
    assert(parents.take(i as int) =~= parents);
    LoadPlan {
        ticket,
        sub: post.subreddit.clone(),
        post_id: post.id.clone(),
        preview_url,
        gallery_urls: clone_optional_strings(&post.galleries),
        crosspost_gallery_urls,
    }
}

/// Writes the address under which `post` is found in a browser.
pub fn address_of(post: &Post) -> (url: String)
    ensures
        url@ == address(post@),
{
    let url = String::from_str("https://www.reddit.com/r/");
    let url = url.concat(post.subreddit.as_str());
    let url = url.concat("/comments/");
    url.concat(post.id.as_str())
}

/// The detail screen, over images of type `I`.
#[derive(Debug)]
pub struct PostDetailComponent<I> {
    state: PostDetailState<I>,
}

impl<I> View for PostDetailComponent<I> {
    type V = PostDetailView<I>;

    closed spec fn view(&self) -> PostDetailView<I> {
        self.state@
    }
}

impl<I> PostDetailComponent<I> {
    /// The screen while it shows no item.
    pub fn new() -> (screen: PostDetailComponent<I>)
        ensures
            screen@ == PostDetailView::<I>::initial(),
            screen@.wf(),
    {
        PostDetailComponent { state: PostDetailState::new() }
    }

    /// What the screen holds.
    pub fn state(&self) -> (state: &PostDetailState<I>)
        ensures
            state@ == self@,
    {
        &self.state
    }

    /// Asks for `post` to be shown. Nothing happens if `post` is the item shown.
    /// Otherwise the screen drops what it held, shows `post` from the top, and
    /// asks for the load under way to be cancelled, for a redraw, and for the
    /// fetches of `post` under a new ticket.
    pub fn load(&mut self, post: Post) -> (actions: Vec<Action>)
        requires
            old(self)@.wf(),
        ensures
            final(self)@ == old(self)@.load(post@),
            actions_view(actions@) == old(self)@.load_actions(post@),
            final(self)@.wf(),
    {
        let mut actions = no_actions();
        if self.state.post.id == post.id {
            return actions;
        }
        if let Some(ticket) = self.state.load_handle {
            push_action(&mut actions, Action::Abort(ticket));
        }
        let ticket: u64 = if self.state.issued == u64::MAX {
            0
        } else {
            self.state.issued + 1
        };
        let fetches = plan(&post, ticket);
        self.clear();
        self.state.post = post;
        self.state.loading_comment = true;
        self.state.issued = ticket;
        self.state.load_handle = Some(ticket);
        push_action(&mut actions, draw_action());
        push_action(&mut actions, Action::FetchDetail(fetches));
        assert(actions_view(actions@) =~= old(self)@.load_actions(post@));
        actions
    }

    /// Drops the item and everything loaded for it, and scrolls to the top.
    fn clear(&mut self)
        ensures
            final(self)@ == PostDetailView::<I>::cleared(
                old(self)@.scroll_state,
                old(self)@.issued,
            ),
    {
        self.state.post = Post::default();
        self.state.scroll_state.scroll_to_top();
        self.state.preview_image = None;
        self.state.medias = None;
        self.state.crosspost_parents_medias = None;
        self.state.loading_comment = false;
        self.state.comments = Vec::new();
        self.state.load_handle = None;
        self.state.preview_failed = false;
        self.state.medias_failed = false;
        self.state.crosspost_medias_failed = false;
        self.state.comments_failed = false;
        assert(listing_view(self.state.comments@) =~= Seq::empty());
    }

    /// Takes the outcome of the preview fetch made under `ticket`: the image, or
    /// `None` if it could not be had. An outcome of a load that was superseded or
    /// cancelled is dropped; otherwise the image is stored and a redraw asked for.
    pub fn preview_loaded(&mut self, ticket: u64, image: Option<I>) -> (actions: Vec<Action>)
        requires
            old(self)@.wf(),
        ensures
            final(self)@ == old(self)@.preview_loaded(ticket as nat, image),
            actions_view(actions@) == old(self)@.result_actions(ticket as nat),
            final(self)@.wf(),
    {
        let mut actions = no_actions();
        if !self.accepts(ticket) {
            return actions;
        }
        self.state.preview_failed = image.is_none();
        self.state.preview_image = image;
        push_action(&mut actions, draw_action());
        assert(actions_view(actions@) =~= old(self)@.result_actions(ticket as nat));
        actions
    }

    /// Takes the outcome of the gallery fetch made under `ticket`: for each image
    /// in order the image, or `None` if it could not be had. An outcome of a load
    /// that was superseded or cancelled is dropped; otherwise the images that
    /// arrived form the gallery, which shows the first, and a redraw is asked for.
    pub fn gallery_loaded(&mut self, ticket: u64, results: Vec<Option<I>>) -> (actions: Vec<
        Action,
    >)
        requires
            old(self)@.wf(),
        ensures
            final(self)@ == old(self)@.gallery_loaded(ticket as nat, results@),
            actions_view(actions@) == old(self)@.result_actions(ticket as nat),
            final(self)@.wf(),
    {
        let mut actions = no_actions();
        if !self.accepts(ticket) {
            return actions;
        }
        let total = results.len();
        let images = keep_decoded(results);
        self.state.medias_failed = images.len() < total;
        self.state.medias = Gallery::new(images);
        push_action(&mut actions, draw_action());
        assert(actions_view(actions@) =~= old(self)@.result_actions(ticket as nat));
        actions
    }

    /// Takes the outcome of the fetch of the parents' galleries made under
    /// `ticket`: one list of results for each parent with a gallery. An outcome of
    /// a load that was superseded or cancelled is dropped; otherwise each list
    /// with an image forms a gallery, and a redraw is asked for.
    pub fn crossposts_loaded(&mut self, ticket: u64, results: Vec<Vec<Option<I>>>) -> (actions:
        Vec<Action>)
        requires
            old(self)@.wf(),
        ensures
            final(self)@ == old(self)@.crossposts_loaded(
                ticket as nat,
                result_lists_view(results@),
            ),
            actions_view(actions@) == old(self)@.result_actions(ticket as nat),
            final(self)@.wf(),
    {
        let mut actions = no_actions();
        if !self.accepts(ticket) {
            return actions;
        }
        let (galleries, missing) = keep_galleries(results);
        self.state.crosspost_medias_failed = missing;
        self.state.crosspost_parents_medias = Some(galleries);
        push_action(&mut actions, draw_action());
        assert(actions_view(actions@) =~= old(self)@.result_actions(ticket as nat));
        actions
    }

    /// Takes the outcome of the fetch of the replies made under `ticket`: the
    /// top-level replies, or `None` if they could not be had. An outcome of a load
    /// that was superseded or cancelled is dropped; otherwise the replies are
    /// listed in pre-order from depth zero, and a redraw is asked for.
    pub fn comments_loaded(&mut self, ticket: u64, outcome: Option<Vec<Comment>>) -> (actions:
        Vec<Action>)
        requires
            old(self)@.wf(),
        ensures
            final(self)@ == old(self)@.comments_loaded(ticket as nat, replies_view(outcome)),
            actions_view(actions@) == old(self)@.result_actions(ticket as nat),
            final(self)@.wf(),
    {
        let mut actions = no_actions();
        if !self.accepts(ticket) {
            return actions;
        }
        self.state.loading_comment = false;
        match outcome {
            Some(replies) => {
                self.state.comments_failed = false;
                self.state.comments = flatten_all(&replies, 0);
            },
            None => {
                self.state.comments_failed = true;
                self.state.comments = Vec::new();
                assert(listing_view(self.state.comments@) =~= Seq::empty());
            },
        }
        push_action(&mut actions, draw_action());
        assert(actions_view(actions@) =~= old(self)@.result_actions(ticket as nat));
        actions
    }

    /// Notes that the load made under `ticket` has ended.
    pub fn finished(&mut self, ticket: u64)
        requires
            old(self)@.wf(),
        ensures
            final(self)@ == old(self)@.finished(ticket as nat),
            final(self)@.wf(),
    {
        if self.accepts(ticket) {
            self.state.load_handle = None;
        }
    }

    /// Whether the screen takes results handed in under `ticket`.
    pub fn accepts(&self, ticket: u64) -> (accepted: bool)
        ensures
            accepted == self@.accepts(ticket as nat),
    {
        match self.state.load_handle {
            Some(current) => current == ticket,
            None => false,
        }
    }

    /// Drops the item and everything loaded for it, and scrolls to the top.
    pub fn reset(&mut self)
        requires
            old(self)@.wf(),
        ensures
            final(self)@ == old(self)@.reset(),
            final(self)@.wf(),
    {
        self.clear();
    }

    /// Closes the screen: asks for the load under way to be cancelled, resets the
    /// screen, and tells the navigation authority.
    pub fn close(&mut self) -> (actions: Vec<Action>)
        requires
            old(self)@.wf(),
        ensures
            final(self)@ == old(self)@.reset(),
            actions_view(actions@) == old(self)@.close_actions(),
            final(self)@.wf(),
    {
        let mut actions = no_actions();
        if let Some(ticket) = self.state.load_handle {
            push_action(&mut actions, Action::Abort(ticket));
        }
        self.clear();
        push_action(&mut actions, Action::Send(AppEvent::ClosePostDetail));
        assert(actions_view(actions@) =~= old(self)@.close_actions());
        actions
    }

    /// Steps every gallery once, forward or back, with wraparound.
    pub fn cycle(&mut self, forward: bool)
        requires
            old(self)@.wf(),
        ensures
            final(self)@ == old(self)@.cycle(forward),
            final(self)@.wf(),
    {
        let mut medias: Option<Gallery<I>> = None;
        core::mem::swap(&mut self.state.medias, &mut medias);
        if let Some(gallery) = medias {
            let mut gallery = gallery;
            if forward {
                gallery.next();
            } else {
                gallery.previous();
            }
            self.state.medias = Some(gallery);
        }
        let mut parents: Option<Vec<Gallery<I>>> = None;
        core::mem::swap(&mut self.state.crosspost_parents_medias, &mut parents);
        if let Some(galleries) = parents {
            self.state.crosspost_parents_medias = Some(step_galleries(galleries, forward));
        }
    }

    /// Records what a draw found: the height of a page, and how far the content
    /// can be scrolled.
    pub fn fit_scroll(&mut self, page_height: u16, max_offset: u16)
        ensures
            final(self)@ == old(self)@.scrolled(
                old(self)@.scroll_state.fitted(page_height, max_offset),
            ),
    {
        self.state.scroll_state.fit(page_height, max_offset);
    }

    /// Handles one input event and returns what it asks of the surrounding
    /// program: `j`, `k`, `J` and `K` scroll by a row or a page, `[` and `]` step
    /// the galleries, `o` opens the item in an external viewer, `h` closes the
    /// screen.
    pub fn handle_event(&mut self, event: &Event) -> (actions: Vec<Action>)
        requires
            old(self)@.wf(),
        ensures
            final(self)@ == old(self)@.after(*event),
            actions_view(actions@) == old(self)@.actions(*event),
            final(self)@.wf(),
    {
        let mut actions = no_actions();
        if let Key::Char(c) = event.key {
            if c == 'o' {
                push_action(&mut actions, Action::OpenUrl(address_of(&self.state.post)));
            } else if c == 'h' {
                return self.close();
            } else if c == 'j' {
                self.state.scroll_state.scroll_down();
                push_action(&mut actions, draw_action());
            } else if c == 'k' {
                self.state.scroll_state.scroll_up();
                push_action(&mut actions, draw_action());
            } else if c == 'J' {
                self.state.scroll_state.scroll_page_down();
                push_action(&mut actions, draw_action());
            } else if c == 'K' {
                self.state.scroll_state.scroll_page_up();
                push_action(&mut actions, draw_action());
            } else if c == '[' {
                self.cycle(false);
                push_action(&mut actions, draw_action());
            } else if c == ']' {
                self.cycle(true);
                push_action(&mut actions, draw_action());
            }
        }
        assert(actions_view(actions@) =~= old(self)@.actions(*event));
        actions
    }
}

/// Whether the screen holds no media and no reply.
pub open spec fn holds_nothing<I>(screen: PostDetailView<I>) -> bool {
    &&& screen.preview_image.is_none()
    &&& screen.medias.is_none()
    &&& screen.crosspost_parents_medias.is_none()
    &&& screen.comments.len() == 0
}

/// A result handed in under a ticket that the screen does not accept changes
/// nothing and asks for nothing, whatever it brings.
pub proof fn lemma_stale_results_are_dropped<I>(
    screen: PostDetailView<I>,
    ticket: nat,
    image: Option<I>,
    images: Seq<Option<I>>,
    galleries: Seq<Seq<Option<I>>>,
    replies: Option<Seq<CommentView>>,
)
    requires
        !screen.accepts(ticket),
    ensures
        screen.preview_loaded(ticket, image) == screen,
        screen.gallery_loaded(ticket, images) == screen,
        screen.crossposts_loaded(ticket, galleries) == screen,
        screen.comments_loaded(ticket, replies) == screen,
        screen.finished(ticket) == screen,
        screen.result_actions(ticket) == Seq::<ActionView>::empty(),
{
}

/// When the load of one item is followed by the load of another before it has
/// ended, the second load asks for the first to be cancelled, starts with
/// nothing of the first item on the screen, and runs under another ticket, so
/// that the screen no longer accepts what the first load hands in.
pub proof fn lemma_superseded_load_cannot_write<I>(
    screen: PostDetailView<I>,
    first: PostView,
    second: PostView,
)
    requires
        screen.wf(),
        screen.loads(first),
        first.id != second.id,
    ensures
        screen.load(first).load_handle is Some,
        screen.load(first).load_actions(second)[0] == ActionView::Abort(
            screen.load(first).load_handle->0,
        ),
        screen.load(first).load(second).post == second,
        holds_nothing(screen.load(first).load(second)),
        screen.load(first).load(second).load_handle is Some,
        screen.load(first).load(second).load_handle != screen.load(first).load_handle,
        !screen.load(first).load(second).accepts(screen.load(first).load_handle->0),
{
}

/// Asking for the item that is shown changes nothing and asks for nothing.
pub proof fn lemma_load_is_idempotent<I>(screen: PostDetailView<I>, post: PostView)
    ensures
        screen.load(post).load(post) == screen.load(post),
        screen.load(post).load_actions(post) == Seq::<ActionView>::empty(),
{
}

/// After the screen was closed it holds no item, no media and no reply, waits
/// for nothing and is scrolled to the top; and whatever item is opened next
/// starts from the top with no media and no reply.
pub proof fn lemma_close_clears<I>(screen: PostDetailView<I>, next: PostView)
    ensures
        screen.after(Event { key: Key::Char('h'), edit: None }) == screen.reset(),
        screen.reset().post == PostView::empty(),
        holds_nothing(screen.reset()),
        screen.reset().scroll_state.offset == 0,
        !screen.reset().loading_comment,
        screen.reset().load_handle.is_none(),
        holds_nothing(screen.reset().load(next)),
        screen.reset().load(next).scroll_state.offset == 0,
{
}

/// A result writes only its own part of the screen: the item, the scroll
/// position and the ticket stay, and so does what the other fetches brought.
pub proof fn lemma_results_are_independent<I>(
    screen: PostDetailView<I>,
    ticket: nat,
    image: Option<I>,
    images: Seq<Option<I>>,
    galleries: Seq<Seq<Option<I>>>,
    replies: Option<Seq<CommentView>>,
)
    ensures
        screen.preview_loaded(ticket, image) == (PostDetailView {
            preview_image: screen.preview_loaded(ticket, image).preview_image,
            preview_failed: screen.preview_loaded(ticket, image).preview_failed,
            ..screen
        }),
        screen.gallery_loaded(ticket, images) == (PostDetailView {
            medias: screen.gallery_loaded(ticket, images).medias,
            medias_failed: screen.gallery_loaded(ticket, images).medias_failed,
            ..screen
        }),
        screen.crossposts_loaded(ticket, galleries) == (PostDetailView {
            crosspost_parents_medias: screen.crossposts_loaded(
                ticket,
                galleries,
            ).crosspost_parents_medias,
            crosspost_medias_failed: screen.crossposts_loaded(
                ticket,
                galleries,
            ).crosspost_medias_failed,
            ..screen
        }),
        screen.comments_loaded(ticket, replies) == (PostDetailView {
            comments: screen.comments_loaded(ticket, replies).comments,
            loading_comment: screen.comments_loaded(ticket, replies).loading_comment,
            comments_failed: screen.comments_loaded(ticket, replies).comments_failed,
            ..screen
        }),
{
}

} // verus!
