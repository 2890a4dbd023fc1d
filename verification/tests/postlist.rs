use ngored::action::Action;
use ngored::app::AppEvent;
use ngored::component::postlist::{PostlistComponent, PostlistState};
use ngored::event::{Event, Key};
use ngored::model::post::Post;

fn post(id: &str) -> Post {
    Post {
        author: "author".to_string(),
        body: "body".to_string(),
        created_at: 1,
        crosspost_parent: vec![],
        galleries: None,
        id: id.to_string(),
        num_comments: 0,
        preview_image_urls: None,
        score: 0,
        subreddit: "alpha".to_string(),
        title: format!("title {}", id),
        url: String::new(),
    }
}

fn press(c: char) -> Event {
    Event::key(Key::Char(c))
}

fn draw() -> Vec<Action> {
    vec![Action::Send(AppEvent::Draw)]
}

fn loaded(ids: &[&str]) -> PostlistComponent {
    let mut screen = PostlistComponent::new();
    screen.load("alpha".to_string());
    screen.posts_loaded(&"alpha".to_string(), Some(ids.iter().map(|id| post(id)).collect()));
    screen
}

#[test]
fn postlist_starts_empty() {
    let state = PostlistState::new();
    assert!(!state.loading());
    assert!(!state.failed());
    assert_eq!(state.sub(), "");
    assert!(state.items().is_empty());
    assert_eq!(state.selected(), None);
    let screen = PostlistComponent::new();
    assert!(!screen.state().loading());
    assert_eq!(screen.state().sub(), "");
    assert!(screen.state().items().is_empty());
    assert_eq!(screen.state().selected(), None);
}

#[test]
fn postlist_load_starts_one_fetch() {
    let mut screen = PostlistComponent::new();
    assert_eq!(
        screen.load("alpha".to_string()),
        vec![Action::Send(AppEvent::Draw), Action::FetchPosts("alpha".to_string())]
    );
    assert!(screen.state().loading());
    assert_eq!(screen.state().sub(), "alpha");
    assert!(screen.state().items().is_empty());
    assert_eq!(screen.state().selected(), None);
}

#[test]
fn postlist_load_twice_starts_no_second_fetch() {
    let mut screen = PostlistComponent::new();
    let first = screen.load("alpha".to_string());
    let second = screen.load("alpha".to_string());
    assert_eq!(first.iter().filter(|a| matches!(a, Action::FetchPosts(_))).count(), 1);
    assert_eq!(second, Vec::new());
    assert!(screen.state().loading());
    screen.posts_loaded(&"alpha".to_string(), Some(vec![post("1")]));
    assert_eq!(screen.load("alpha".to_string()), Vec::new());
    assert_eq!(screen.state().items(), &vec![post("1")]);
    assert!(!screen.state().loading());
}

#[test]
fn postlist_load_while_loading_is_ignored() {
    let mut screen = PostlistComponent::new();
    screen.load("alpha".to_string());
    assert_eq!(screen.load("beta".to_string()), Vec::new());
    assert_eq!(screen.state().sub(), "alpha");
    assert!(screen.state().loading());
}

#[test]
fn postlist_load_of_the_empty_name_on_a_new_screen_is_ignored() {
    let mut screen = PostlistComponent::new();
    assert_eq!(screen.load(String::new()), Vec::new());
    assert!(!screen.state().loading());
}

#[test]
fn postlist_load_of_another_feed_clears_the_list() {
    let mut screen = loaded(&["1", "2"]);
    assert_eq!(
        screen.load("beta".to_string()),
        vec![Action::Send(AppEvent::Draw), Action::FetchPosts("beta".to_string())]
    );
    assert!(screen.state().items().is_empty());
    assert_eq!(screen.state().selected(), None);
    assert_eq!(screen.state().sub(), "beta");
    assert!(screen.state().loading());
}

#[test]
fn postlist_takes_the_items_and_highlights_the_first() {
    let mut screen = PostlistComponent::new();
    screen.load("alpha".to_string());
    assert_eq!(
        screen.posts_loaded(&"alpha".to_string(), Some(vec![post("1"), post("2")])),
        draw()
    );
    assert!(!screen.state().loading());
    assert!(!screen.state().failed());
    assert_eq!(screen.state().items(), &vec![post("1"), post("2")]);
    assert_eq!(screen.state().selected(), Some(0));
}

#[test]
fn postlist_takes_an_empty_feed() {
    let mut screen = PostlistComponent::new();
    screen.load("alpha".to_string());
    assert_eq!(screen.posts_loaded(&"alpha".to_string(), Some(Vec::new())), draw());
    assert!(!screen.state().loading());
    assert!(!screen.state().failed());
    assert_eq!(screen.state().selected(), None);
}

#[test]
fn postlist_survives_a_failed_fetch() {
    let mut screen = PostlistComponent::new();
    screen.load("alpha".to_string());
    assert_eq!(screen.posts_loaded(&"alpha".to_string(), None), draw());
    assert!(!screen.state().loading());
    assert!(screen.state().failed());
    assert!(screen.state().items().is_empty());
    assert_eq!(screen.state().selected(), None);
    assert_eq!(
        screen.load("beta".to_string()),
        vec![Action::Send(AppEvent::Draw), Action::FetchPosts("beta".to_string())]
    );
    assert!(!screen.state().failed());
}

#[test]
fn postlist_drops_items_it_does_not_wait_for() {
    let mut screen = PostlistComponent::new();
    assert_eq!(screen.posts_loaded(&"alpha".to_string(), Some(vec![post("1")])), Vec::new());
    assert!(screen.state().items().is_empty());
    screen.load("alpha".to_string());
    assert_eq!(screen.posts_loaded(&"beta".to_string(), Some(vec![post("1")])), Vec::new());
    assert!(screen.state().loading());
    assert!(screen.state().items().is_empty());
    screen.posts_loaded(&"alpha".to_string(), Some(vec![post("1")]));
    assert_eq!(screen.posts_loaded(&"alpha".to_string(), Some(vec![post("2")])), Vec::new());
    assert_eq!(screen.state().items(), &vec![post("1")]);
}

#[test]
fn postlist_selection_wraps_around() {
    let mut screen = loaded(&["1", "2", "3"]);
    assert_eq!(screen.handle_event(&press('k')), draw());
    assert_eq!(screen.state().selected(), Some(2));
    assert_eq!(screen.handle_event(&press('j')), draw());
    assert_eq!(screen.state().selected(), Some(0));
    assert_eq!(screen.handle_event(&press('j')), draw());
    assert_eq!(screen.state().selected(), Some(1));
    assert_eq!(screen.handle_event(&press('k')), draw());
    assert_eq!(screen.state().selected(), Some(0));
}

#[test]
fn postlist_selection_on_an_empty_list_stays_none() {
    let mut screen = loaded(&[]);
    assert_eq!(screen.handle_event(&press('j')), draw());
    assert_eq!(screen.state().selected(), None);
    assert_eq!(screen.handle_event(&press('k')), draw());
    assert_eq!(screen.state().selected(), None);
    assert_eq!(screen.handle_event(&press('l')), Vec::new());
    assert_eq!(screen.selected_item(), None);
}

#[test]
fn postlist_open_sends_the_highlighted_item() {
    let mut screen = loaded(&["1", "2", "3"]);
    screen.select_next();
    assert_eq!(screen.selected_item(), Some(&post("2")));
    assert_eq!(
        screen.handle_event(&press('l')),
        vec![Action::Send(AppEvent::OpenPostDetail(post("2")))]
    );
    assert_eq!(screen.state().selected(), Some(1));
}

#[test]
fn postlist_close_puts_the_highlight_back_on_the_first_item() {
    let mut screen = loaded(&["1", "2", "3"]);
    screen.select_previous();
    assert_eq!(screen.state().selected(), Some(2));
    assert_eq!(
        screen.handle_event(&press('h')),
        vec![Action::Send(AppEvent::ClosePostList)]
    );
    assert_eq!(screen.state().selected(), Some(0));
    assert_eq!(screen.state().items().len(), 3);
    assert_eq!(screen.state().sub(), "alpha");
    let mut empty = loaded(&[]);
    assert_eq!(empty.handle_event(&press('h')), vec![Action::Send(AppEvent::ClosePostList)]);
    assert_eq!(empty.state().selected(), None);
    empty.select_first();
    assert_eq!(empty.state().selected(), None);
}

#[test]
fn postlist_ignores_other_keys() {
    let mut screen = loaded(&["1", "2"]);
    for event in [press('x'), press('a'), Event::key(Key::Enter), Event::key(Key::Esc), Event::key(Key::Other)] {
        assert_eq!(screen.handle_event(&event), Vec::new());
    }
    assert_eq!(screen.state().selected(), Some(0));
    assert_eq!(screen.state().items().len(), 2);
}
