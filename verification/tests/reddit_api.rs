use ngored::model::comment::Comment;
use ngored::model::post::Post;
use ngored::reddit_api::{
    convert_comment, convert_comments, convert_gallery, convert_post, convert_preview,
    find_media_url, listing_comments, listing_posts, CommentData, Data, GalleryData, GalleryItem,
    Image, ImageResolution, ListingData, Media, MediaItem, MediaMetadata, MediaPreview, MoreData,
    PostData, Preview, RedditVideo,
};

fn post_data(id: &str) -> PostData {
    PostData {
        id: id.to_string(),
        subreddit: "alpha".to_string(),
        author: "nova".to_string(),
        title: "title".to_string(),
        selftext: "text".to_string(),
        url: "https://example.org".to_string(),
        num_comments: 3,
        score: -2,
        crosspost_parent_list: vec![],
        preview: None,
        media_metadata: None,
        gallery_data: None,
        created_utc: 1_700_000_000,
        media: Some(Media { reddit_video: Some(RedditVideo { hls_url: "v".to_string() }) }),
    }
}

fn comment_data(author: &str, replies: Option<Box<Data>>) -> CommentData {
    CommentData {
        body: format!("says {}", author),
        author: author.to_string(),
        score: 4,
        created_utc: 99,
        replies,
    }
}

fn more() -> Data {
    Data::More(MoreData { count: 2, children: vec!["x".to_string()] })
}

fn listing(children: Vec<Data>) -> Data {
    Data::Listing(ListingData { children })
}

fn medium(id: &str, urls: &[&str]) -> MediaItem {
    MediaItem {
        status: "valid".to_string(),
        e: "Image".to_string(),
        m: "image/png".to_string(),
        p: urls.iter().map(|u| MediaPreview { y: 1, x: 1, u: u.to_string() }).collect(),
        id: id.to_string(),
    }
}

fn entries(ids: &[&str]) -> GalleryData {
    GalleryData { items: ids.iter().map(|id| GalleryItem { media_id: id.to_string() }).collect() }
}

#[test]
fn data_as_post_gives_the_item() {
    assert_eq!(Data::Post(post_data("1")).as_post(), post_data("1"));
}

#[test]
fn data_as_listing_gives_the_listing() {
    assert_eq!(listing(vec![more()]).as_listing(), ListingData { children: vec![more()] });
}

#[test]
fn data_as_comment_gives_the_reply() {
    assert_eq!(Data::Comment(comment_data("a", None)).as_comment(), comment_data("a", None));
}

#[test]
fn data_as_comment_opt_is_none_for_other_nodes() {
    assert_eq!(Data::Comment(comment_data("a", None)).as_comment_opt(), Some(comment_data("a", None)));
    assert_eq!(more().as_comment_opt(), None);
    assert_eq!(Data::Post(post_data("1")).as_comment_opt(), None);
    assert_eq!(listing(vec![]).as_comment_opt(), None);
}

#[test]
fn post_from_copies_the_fields() {
    let post = Post::from(post_data("item"));
    assert_eq!(
        post,
        Post {
            author: "nova".to_string(),
            body: "text".to_string(),
            created_at: 1_700_000_000,
            crosspost_parent: vec![],
            galleries: None,
            id: "item".to_string(),
            num_comments: 3,
            preview_image_urls: None,
            score: -2,
            subreddit: "alpha".to_string(),
            title: "title".to_string(),
            url: "https://example.org".to_string(),
        }
    );
}

#[test]
fn post_from_converts_the_parents() {
    let mut grandparent = post_data("g");
    grandparent.subreddit = "gamma".to_string();
    let mut parent = post_data("p");
    parent.crosspost_parent_list = vec![grandparent];
    let mut child = post_data("c");
    child.crosspost_parent_list = vec![parent, post_data("q")];
    let post = Post::from(child);
    assert_eq!(post.crosspost_parent.len(), 2);
    assert_eq!(post.crosspost_parent[0].id, "p");
    assert_eq!(post.crosspost_parent[0].crosspost_parent.len(), 1);
    assert_eq!(post.crosspost_parent[0].crosspost_parent[0].subreddit, "gamma");
    assert_eq!(post.crosspost_parent[1], convert_post(&post_data("q")));
}

#[test]
fn post_from_takes_the_resolutions_of_the_first_preview_image() {
    let image = |urls: &[&str]| Image {
        resolutions: urls
            .iter()
            .map(|u| ImageResolution { url: u.to_string(), width: 1, height: 1 })
            .collect(),
    };
    let mut data = post_data("p");
    data.preview = Some(Preview { images: vec![image(&["low", "high"]), image(&["other"])] });
    assert_eq!(
        Post::from(data).preview_image_urls,
        Some(vec!["low".to_string(), "high".to_string()])
    );
    assert_eq!(convert_preview(&Some(Preview { images: vec![] })), None);
    assert_eq!(convert_preview(&Some(Preview { images: vec![image(&[])] })), Some(vec![]));
    assert_eq!(convert_preview(&None), None);
}

#[test]
fn post_from_lists_the_gallery_in_display_order() {
    let mut data = post_data("p");
    data.media_metadata = Some(MediaMetadata {
        items: vec![medium("m1", &["m1-low", "m1-high"]), medium("m2", &["m2-high"])],
    });
    data.gallery_data = Some(entries(&["m2", "m1"]));
    assert_eq!(
        Post::from(data).galleries,
        Some(vec!["m2-high".to_string(), "m1-high".to_string()])
    );
}

#[test]
fn gallery_leaves_out_entries_without_an_address() {
    let metadata = Some(MediaMetadata {
        items: vec![medium("m1", &[]), medium("m2", &["m2-high"]), medium("m2", &["again"])],
    });
    assert_eq!(
        convert_gallery(&Some(entries(&["m1", "m3", "m2"])), &metadata),
        Some(vec!["m2-high".to_string()])
    );
    assert_eq!(convert_gallery(&Some(entries(&[])), &metadata), Some(vec![]));
    assert_eq!(convert_gallery(&None, &metadata), None);
    assert_eq!(convert_gallery(&Some(entries(&["m2"])), &None), None);
}

#[test]
fn find_media_url_takes_the_first_medium_with_a_resolution() {
    let media = vec![medium("a", &[]), medium("b", &["b1", "b2"]), medium("a", &["a1"]), medium("a", &["a2"])];
    assert_eq!(find_media_url(&media, &"a".to_string()), Some("a1".to_string()));
    assert_eq!(find_media_url(&media, &"b".to_string()), Some("b2".to_string()));
    assert_eq!(find_media_url(&media, &"c".to_string()), None);
    assert_eq!(find_media_url(&Vec::new(), &"a".to_string()), None);
}

#[test]
fn comment_from_copies_the_fields() {
    assert_eq!(
        Comment::from(comment_data("a", None)),
        Comment {
            body: "says a".to_string(),
            author: "a".to_string(),
            score: 4,
            created_at: 99,
            replies: vec![],
        }
    );
}

#[test]
fn comment_from_keeps_the_replies_of_the_listing() {
    let nested = listing(vec![Data::Comment(comment_data("c", None))]);
    let replies = listing(vec![
        Data::Comment(comment_data("b", Some(Box::new(nested)))),
        more(),
        Data::Post(post_data("p")),
        Data::Comment(comment_data("d", None)),
    ]);
    let comment = Comment::from(comment_data("a", Some(Box::new(replies))));
    assert_eq!(comment.author, "a");
    assert_eq!(comment.replies.len(), 2);
    assert_eq!(comment.replies[0].author, "b");
    assert_eq!(comment.replies[0].replies.len(), 1);
    assert_eq!(comment.replies[0].replies[0].author, "c");
    assert_eq!(comment.replies[1], convert_comment(&comment_data("d", None)));
}

#[test]
fn comment_from_takes_replies_that_are_no_listing_as_none() {
    let comment = Comment::from(comment_data("a", Some(Box::new(more()))));
    assert!(comment.replies.is_empty());
    assert!(convert_comments(&Data::Comment(comment_data("a", None))).is_empty());
    assert!(convert_comments(&listing(vec![])).is_empty());
}

#[test]
fn listing_posts_converts_a_listing_of_items() {
    let answer = listing(vec![Data::Post(post_data("1")), Data::Post(post_data("2"))]);
    assert_eq!(
        listing_posts(&answer),
        Some(vec![convert_post(&post_data("1")), convert_post(&post_data("2"))])
    );
    assert_eq!(listing_posts(&listing(vec![])), Some(vec![]));
}

#[test]
fn listing_posts_fails_on_any_other_answer() {
    assert_eq!(listing_posts(&more()), None);
    assert_eq!(listing_posts(&Data::Post(post_data("1"))), None);
    assert_eq!(listing_posts(&listing(vec![Data::Post(post_data("1")), more()])), None);
    assert_eq!(
        listing_posts(&listing(vec![more(), Data::Post(post_data("1")), Data::Post(post_data("2"))])),
        None
    );
}

#[test]
fn listing_comments_keeps_the_replies() {
    let answer = listing(vec![Data::Comment(comment_data("a", None)), more()]);
    assert_eq!(listing_comments(&answer), Some(vec![convert_comment(&comment_data("a", None))]));
    assert_eq!(listing_comments(&listing(vec![more()])), Some(vec![]));
    assert_eq!(listing_comments(&more()), None);
    assert_eq!(listing_comments(&Data::Comment(comment_data("a", None))), None);
}
