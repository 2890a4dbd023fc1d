use ngored::action::{Action, LoadPlan};
use ngored::app::AppEvent;
use ngored::component::gallery::{keep_decoded, keep_galleries, step_galleries, Gallery};
use ngored::component::postdetail::{address_of, plan, PostDetailComponent, PostDetailState};
use ngored::component::scroll::ScrollState;
use ngored::event::{Event, Key};
use ngored::model::comment::Comment;
use ngored::model::post::Post;

fn post(id: &str) -> Post {
    Post {
        author: "author".to_string(),
        body: "body".to_string(),
        created_at: 1,
        crosspost_parent: vec![],
        galleries: None,
        id: id.to_string(),
        num_comments: 0,
        preview_image_urls: None,
        score: 0,
        subreddit: "alpha".to_string(),
        title: format!("title {}", id),
        url: String::new(),
    }
}

fn strings(items: &[&str]) -> Vec<String> {
    items.iter().map(|s| s.to_string()).collect()
}

fn reply(name: &str, replies: Vec<Comment>) -> Comment {
    Comment { body: String::new(), author: name.to_string(), score: 0, created_at: 0, replies }
}

fn press(c: char) -> Event {
    Event::key(Key::Char(c))
}

fn draw() -> Vec<Action> {
    vec![Action::Send(AppEvent::Draw)]
}

fn ticket_of(actions: &Vec<Action>) -> u64 {
    for action in actions {
        if let Action::FetchDetail(plan) = action {
            return plan.ticket;
        }
    }
    panic!("no load was started")
}

fn authors(screen: &PostDetailComponent<u32>) -> Vec<(usize, String)> {
    screen.state().comments().iter().map(|(d, c)| (*d, c.author.clone())).collect()
}

fn indices(screen: &PostDetailComponent<u32>) -> (Option<usize>, Vec<usize>) {
    (
        screen.state().medias().map(|g| g.index()),
        screen
            .state()
            .crosspost_parents_medias()
            .map(|gs| gs.iter().map(|g| g.index()).collect())
            .unwrap_or_default(),
    )
}

fn holds_nothing(screen: &PostDetailComponent<u32>) -> bool {
    screen.state().preview_image().is_none()
        && screen.state().medias().is_none()
        && screen.state().crosspost_parents_medias().is_none()
        && screen.state().comments().is_empty()
}

#[test]
fn gallery_previous_at_the_first_image_wraps_to_the_last() {
    let mut gallery = Gallery::new(vec![10u32, 20, 30]).unwrap();
    assert_eq!(gallery.index(), 0);
    gallery.previous();
    assert_eq!(gallery.index(), 2);
    assert_eq!(*gallery.current(), 30);
    gallery.previous();
    assert_eq!(gallery.index(), 1);
}

#[test]
fn gallery_next_at_the_last_image_wraps_to_the_first() {
    let mut gallery = Gallery::new(vec![10u32, 20, 30]).unwrap();
    gallery.next();
    assert_eq!(gallery.index(), 1);
    gallery.next();
    assert_eq!(gallery.index(), 2);
    gallery.next();
    assert_eq!(gallery.index(), 0);
    assert_eq!(gallery.images(), &vec![10, 20, 30]);
}

#[test]
fn gallery_of_one_image_stays_on_it() {
    let mut gallery = Gallery::new(vec![7u32]).unwrap();
    gallery.next();
    assert_eq!(gallery.index(), 0);
    gallery.previous();
    assert_eq!(gallery.index(), 0);
}

#[test]
fn gallery_needs_an_image() {
    assert!(Gallery::<u32>::new(Vec::new()).is_none());
}

#[test]
fn keep_decoded_keeps_the_images_in_order() {
    assert_eq!(keep_decoded(vec![Some(1u32), None, Some(3), None]), vec![1, 3]);
    assert_eq!(keep_decoded::<u32>(vec![None, None]), Vec::<u32>::new());
    assert_eq!(keep_decoded::<u32>(Vec::new()), Vec::<u32>::new());
}

#[test]
fn keep_galleries_leaves_out_lists_without_an_image() {
    let (galleries, missing) =
        keep_galleries(vec![vec![Some(1u32), Some(2)], vec![None], vec![], vec![None, Some(5)]]);
    assert!(missing);
    assert_eq!(galleries.len(), 2);
    assert_eq!(galleries[0].images(), &vec![1, 2]);
    assert_eq!(galleries[0].index(), 0);
    assert_eq!(galleries[1].images(), &vec![5]);
    let (all, missing) = keep_galleries(vec![vec![Some(1u32)], vec![]]);
    assert!(!missing);
    assert_eq!(all.len(), 1);
}

#[test]
fn step_galleries_moves_each_gallery() {
    let galleries = vec![Gallery::new(vec![1u32, 2, 3]).unwrap(), Gallery::new(vec![4u32, 5]).unwrap()];
    let back = step_galleries(galleries, false);
    assert_eq!(back.iter().map(|g| g.index()).collect::<Vec<_>>(), vec![2, 1]);
    let forward = step_galleries(back, true);
    assert_eq!(forward.iter().map(|g| g.index()).collect::<Vec<_>>(), vec![0, 0]);
}

#[test]
fn scroll_moves_by_rows() {
    let mut scroll = ScrollState::new();
    assert_eq!(scroll, ScrollState { offset: 0, page_height: None });
    scroll.scroll_up();
    assert_eq!(scroll.offset, 0);
    scroll.scroll_down();
    scroll.scroll_down();
    assert_eq!(scroll.offset, 2);
    scroll.scroll_up();
    assert_eq!(scroll.offset, 1);
    scroll.offset = u16::MAX;
    scroll.scroll_down();
    assert_eq!(scroll.offset, u16::MAX);
}

#[test]
fn scroll_moves_by_pages_with_one_row_of_overlap() {
    let mut scroll = ScrollState { offset: 5, page_height: Some(10) };
    scroll.scroll_page_down();
    assert_eq!(scroll.offset, 14);
    scroll.scroll_page_up();
    assert_eq!(scroll.offset, 5);
    scroll.scroll_page_up();
    assert_eq!(scroll.offset, 0);
    scroll.offset = u16::MAX - 3;
    scroll.scroll_page_down();
    assert_eq!(scroll.offset, u16::MAX - 1);
}

#[test]
fn scroll_by_pages_before_the_first_draw_does_not_move() {
    let mut scroll = ScrollState { offset: 5, page_height: None };
    scroll.scroll_page_down();
    assert_eq!(scroll.offset, 5);
    scroll.scroll_page_up();
    assert_eq!(scroll.offset, 5);
}

#[test]
fn scroll_fit_moves_back_to_the_end() {
    let mut scroll = ScrollState { offset: 50, page_height: None };
    scroll.fit(20, 30);
    assert_eq!(scroll, ScrollState { offset: 30, page_height: Some(20) });
    scroll.fit(25, 40);
    assert_eq!(scroll, ScrollState { offset: 30, page_height: Some(25) });
    scroll.scroll_to_top();
    assert_eq!(scroll, ScrollState { offset: 0, page_height: Some(25) });
}

#[test]
fn plan_lists_the_fetches_of_an_item() {
    let mut parent_with = post("up");
    parent_with.galleries = Some(strings(&["pa", "pb"]));
    let parent_without = post("plain");
    let mut other = post("far");
    other.galleries = Some(strings(&["pc"]));
    let mut item = post("x1");
    item.preview_image_urls = Some(strings(&["low", "mid", "high"]));
    item.galleries = Some(strings(&["g1", "g2"]));
    item.crosspost_parent = vec![parent_with, parent_without, other];
    assert_eq!(
        plan(&item, 9),
        LoadPlan {
            ticket: 9,
            sub: "alpha".to_string(),
            post_id: "x1".to_string(),
            preview_url: Some("high".to_string()),
            gallery_urls: Some(strings(&["g1", "g2"])),
            crosspost_gallery_urls: vec![strings(&["pa", "pb"]), strings(&["pc"])],
        }
    );
}

#[test]
fn plan_of_an_item_without_media_fetches_only_replies() {
    let mut item = post("x1");
    item.preview_image_urls = Some(Vec::new());
    assert_eq!(
        plan(&item, 0),
        LoadPlan {
            ticket: 0,
            sub: "alpha".to_string(),
            post_id: "x1".to_string(),
            preview_url: None,
            gallery_urls: None,
            crosspost_gallery_urls: Vec::new(),
        }
    );
}

#[test]
fn address_names_the_feed_and_the_item() {
    assert_eq!(address_of(&post("x1")), "https://www.reddit.com/r/alpha/comments/x1");
}

#[test]
fn postdetail_starts_empty() {
    let state: PostDetailState<u32> = PostDetailState::new();
    assert_eq!(state.post(), &Post::default());
    assert_eq!(state.scroll_state(), ScrollState { offset: 0, page_height: None });
    assert!(state.preview_image().is_none());
    assert!(state.medias().is_none());
    assert!(state.crosspost_parents_medias().is_none());
    assert!(!state.loading_comment());
    assert!(state.comments().is_empty());
    assert_eq!(state.load_handle(), None);
    assert!(!state.preview_failed() && !state.medias_failed());
    assert!(!state.crosspost_medias_failed() && !state.comments_failed());
}

#[test]
fn postdetail_load_shows_the_item_and_plans_its_fetches() {
    let mut screen: PostDetailComponent<u32> = PostDetailComponent::new();
    let actions = screen.load(post("x1"));
    assert_eq!(
        actions,
        vec![Action::Send(AppEvent::Draw), Action::FetchDetail(plan(&post("x1"), 1))]
    );
    assert_eq!(screen.state().post(), &post("x1"));
    assert!(screen.state().loading_comment());
    assert_eq!(screen.state().load_handle(), Some(1));
    assert!(holds_nothing(&screen));
    assert!(screen.accepts(1));
    assert!(!screen.accepts(0));
}

#[test]
fn postdetail_load_of_the_item_shown_is_ignored() {
    let mut screen: PostDetailComponent<u32> = PostDetailComponent::new();
    let ticket = ticket_of(&screen.load(post("x1")));
    screen.preview_loaded(ticket, Some(5));
    assert_eq!(screen.load(post("x1")), Vec::new());
    assert_eq!(screen.state().preview_image(), Some(&5));
    assert_eq!(screen.state().load_handle(), Some(ticket));
    assert_eq!(screen.load(post("x1")), Vec::new());
}

#[test]
fn postdetail_load_of_the_empty_item_on_a_new_screen_is_ignored() {
    let mut screen: PostDetailComponent<u32> = PostDetailComponent::new();
    assert_eq!(screen.load(Post::default()), Vec::new());
    assert_eq!(screen.state().load_handle(), None);
    assert!(!screen.state().loading_comment());
}

#[test]
fn postdetail_fills_in_as_results_arrive() {
    let mut screen: PostDetailComponent<u32> = PostDetailComponent::new();
    let ticket = ticket_of(&screen.load(post("x1")));
    assert_eq!(
        screen.comments_loaded(ticket, Some(vec![reply("A", vec![reply("B", vec![])])])),
        draw()
    );
    assert!(!screen.state().loading_comment());
    assert_eq!(authors(&screen), vec![(0, "A".to_string()), (1, "B".to_string())]);
    assert!(screen.state().preview_image().is_none());
    assert!(screen.state().medias().is_none());
    assert_eq!(screen.preview_loaded(ticket, Some(7)), draw());
    assert_eq!(screen.state().preview_image(), Some(&7));
    assert_eq!(authors(&screen).len(), 2);
    assert_eq!(screen.gallery_loaded(ticket, vec![Some(1), Some(2), Some(3)]), draw());
    assert_eq!(screen.state().medias().unwrap().images(), &vec![1, 2, 3]);
    assert_eq!(screen.state().medias().unwrap().index(), 0);
    assert_eq!(screen.state().preview_image(), Some(&7));
    assert_eq!(screen.crossposts_loaded(ticket, vec![vec![Some(4), Some(5)], vec![Some(6)]]), draw());
    let parents = screen.state().crosspost_parents_medias().unwrap();
    assert_eq!(parents.len(), 2);
    assert_eq!(parents[0].images(), &vec![4, 5]);
    assert_eq!(parents[1].images(), &vec![6]);
    assert_eq!(screen.state().medias().unwrap().images(), &vec![1, 2, 3]);
    assert_eq!(screen.state().post(), &post("x1"));
    assert_eq!(screen.state().load_handle(), Some(ticket));
    screen.finished(ticket);
    assert_eq!(screen.state().load_handle(), None);
    assert_eq!(screen.state().preview_image(), Some(&7));
    assert_eq!(authors(&screen).len(), 2);
}

#[test]
fn postdetail_shows_what_succeeded_when_a_fetch_fails() {
    let mut screen: PostDetailComponent<u32> = PostDetailComponent::new();
    let ticket = ticket_of(&screen.load(post("x1")));
    assert_eq!(screen.preview_loaded(ticket, None), draw());
    assert!(screen.state().preview_image().is_none());
    assert!(screen.state().preview_failed());
    assert_eq!(screen.gallery_loaded(ticket, vec![None, Some(2), None]), draw());
    assert_eq!(screen.state().medias().unwrap().images(), &vec![2]);
    assert!(screen.state().medias_failed());
    assert_eq!(screen.crossposts_loaded(ticket, vec![vec![None], vec![Some(9)]]), draw());
    assert_eq!(screen.state().crosspost_parents_medias().unwrap().len(), 1);
    assert!(screen.state().crosspost_medias_failed());
    assert_eq!(screen.comments_loaded(ticket, None), draw());
    assert!(!screen.state().loading_comment());
    assert!(screen.state().comments_failed());
    assert!(screen.state().comments().is_empty());
    assert_eq!(screen.comments_loaded(ticket, Some(vec![reply("A", vec![])])), draw());
    assert!(!screen.state().comments_failed());
    assert_eq!(authors(&screen), vec![(0, "A".to_string())]);
}

#[test]
fn postdetail_gallery_without_any_image_is_no_gallery() {
    let mut screen: PostDetailComponent<u32> = PostDetailComponent::new();
    let ticket = ticket_of(&screen.load(post("x1")));
    screen.gallery_loaded(ticket, vec![None, None]);
    assert!(screen.state().medias().is_none());
    assert!(screen.state().medias_failed());
    screen.gallery_loaded(ticket, Vec::new());
    assert!(screen.state().medias().is_none());
    assert!(!screen.state().medias_failed());
    screen.crossposts_loaded(ticket, Vec::new());
    assert_eq!(screen.state().crosspost_parents_medias().unwrap().len(), 0);
    assert!(!screen.state().crosspost_medias_failed());
    assert_eq!(screen.handle_event(&press(']')), draw());
    assert_eq!(screen.handle_event(&press('[')), draw());
}

#[test]
fn postdetail_superseded_load_cannot_write() {
    let mut screen: PostDetailComponent<u32> = PostDetailComponent::new();
    let first = ticket_of(&screen.load(post("a")));
    screen.preview_loaded(first, Some(1));
    let actions = screen.load(post("b"));
    let second = ticket_of(&actions);
    assert_ne!(first, second);
    assert_eq!(actions[0], Action::Abort(first));
    assert_eq!(actions[1], Action::Send(AppEvent::Draw));
    assert_eq!(actions.len(), 3);
    assert!(holds_nothing(&screen));
    assert_eq!(screen.state().post(), &post("b"));
    assert_eq!(screen.preview_loaded(first, Some(1)), Vec::new());
    assert_eq!(screen.gallery_loaded(first, vec![Some(2)]), Vec::new());
    assert_eq!(screen.crossposts_loaded(first, vec![vec![Some(3)]]), Vec::new());
    assert_eq!(screen.comments_loaded(first, Some(vec![reply("A", vec![])])), Vec::new());
    screen.finished(first);
    assert!(holds_nothing(&screen));
    assert!(screen.state().loading_comment());
    assert_eq!(screen.state().load_handle(), Some(second));
    assert_eq!(screen.state().post(), &post("b"));
    assert_eq!(screen.preview_loaded(second, Some(8)), draw());
    assert_eq!(screen.state().preview_image(), Some(&8));
}

#[test]
fn postdetail_load_after_a_finished_load_cancels_nothing() {
    let mut screen: PostDetailComponent<u32> = PostDetailComponent::new();
    let first = ticket_of(&screen.load(post("a")));
    screen.finished(first);
    let actions = screen.load(post("b"));
    assert_eq!(
        actions,
        vec![Action::Send(AppEvent::Draw), Action::FetchDetail(plan(&post("b"), first + 1))]
    );
    assert_eq!(screen.preview_loaded(first, Some(1)), Vec::new());
    assert!(screen.state().preview_image().is_none());
}

#[test]
fn postdetail_close_resets_the_screen() {
    let mut screen: PostDetailComponent<u32> = PostDetailComponent::new();
    let ticket = ticket_of(&screen.load(post("x1")));
    screen.preview_loaded(ticket, Some(7));
    screen.gallery_loaded(ticket, vec![Some(1), Some(2)]);
    screen.crossposts_loaded(ticket, vec![vec![Some(4)]]);
    screen.comments_loaded(ticket, Some(vec![reply("A", vec![])]));
    screen.fit_scroll(10, 100);
    screen.handle_event(&press('J'));
    assert_eq!(screen.state().scroll_state().offset, 9);
    assert_eq!(
        screen.handle_event(&press('h')),
        vec![Action::Abort(ticket), Action::Send(AppEvent::ClosePostDetail)]
    );
    assert!(holds_nothing(&screen));
    assert_eq!(screen.state().post(), &Post::default());
    assert_eq!(screen.state().scroll_state().offset, 0);
    assert!(!screen.state().loading_comment());
    assert_eq!(screen.state().load_handle(), None);
    assert_eq!(screen.preview_loaded(ticket, Some(7)), Vec::new());
    assert!(holds_nothing(&screen));
    let again = screen.load(post("x1"));
    assert_eq!(again.len(), 2);
    assert_ne!(ticket_of(&again), ticket);
    assert!(holds_nothing(&screen));
    assert_eq!(screen.state().scroll_state().offset, 0);
}

#[test]
fn postdetail_close_after_the_load_has_ended_cancels_nothing() {
    let mut screen: PostDetailComponent<u32> = PostDetailComponent::new();
    let ticket = ticket_of(&screen.load(post("x1")));
    screen.finished(ticket);
    assert_eq!(screen.close(), vec![Action::Send(AppEvent::ClosePostDetail)]);
    screen.reset();
    assert_eq!(screen.state().post(), &Post::default());
}

#[test]
fn postdetail_galleries_cycle_together() {
    let mut screen: PostDetailComponent<u32> = PostDetailComponent::new();
    let ticket = ticket_of(&screen.load(post("x1")));
    screen.gallery_loaded(ticket, vec![Some(1), Some(2), Some(3)]);
    screen.crossposts_loaded(ticket, vec![vec![Some(4), Some(5)], vec![Some(6)]]);
    assert_eq!(screen.handle_event(&press('[')), draw());
    assert_eq!(indices(&screen), (Some(2), vec![1, 0]));
    assert_eq!(screen.handle_event(&press(']')), draw());
    assert_eq!(indices(&screen), (Some(0), vec![0, 0]));
    assert_eq!(screen.handle_event(&press(']')), draw());
    assert_eq!(indices(&screen), (Some(1), vec![1, 0]));
    screen.cycle(true);
    screen.cycle(true);
    assert_eq!(indices(&screen), (Some(0), vec![1, 0]));
    assert_eq!(screen.state().post(), &post("x1"));
}

#[test]
fn postdetail_scroll_keys_move_only_the_scroll_position() {
    let mut screen: PostDetailComponent<u32> = PostDetailComponent::new();
    let ticket = ticket_of(&screen.load(post("x1")));
    screen.preview_loaded(ticket, Some(7));
    screen.fit_scroll(10, 500);
    assert_eq!(screen.handle_event(&press('j')), draw());
    assert_eq!(screen.state().scroll_state().offset, 1);
    assert_eq!(screen.handle_event(&press('J')), draw());
    assert_eq!(screen.state().scroll_state().offset, 10);
    assert_eq!(screen.handle_event(&press('K')), draw());
    assert_eq!(screen.state().scroll_state().offset, 1);
    assert_eq!(screen.handle_event(&press('k')), draw());
    assert_eq!(screen.state().scroll_state().offset, 0);
    assert_eq!(screen.state().preview_image(), Some(&7));
    assert_eq!(screen.state().post(), &post("x1"));
    assert_eq!(screen.state().load_handle(), Some(ticket));
}

#[test]
fn postdetail_open_externally_changes_nothing() {
    let mut screen: PostDetailComponent<u32> = PostDetailComponent::new();
    let ticket = ticket_of(&screen.load(post("x1")));
    assert_eq!(
        screen.handle_event(&press('o')),
        vec![Action::OpenUrl("https://www.reddit.com/r/alpha/comments/x1".to_string())]
    );
    assert_eq!(screen.state().post(), &post("x1"));
    assert_eq!(screen.state().load_handle(), Some(ticket));
    for event in [press('x'), Event::key(Key::Enter), Event::key(Key::Esc), Event::key(Key::Other)] {
        assert_eq!(screen.handle_event(&event), Vec::new());
    }
}
