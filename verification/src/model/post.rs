//! Items of a feed.

use vstd::prelude::*;
use crate::reddit_api::{convert_post, post_of, PostData};
use crate::text::{clone_optional_strings, optional_strings_view};

verus! {

/// One item of a feed, with the items it was republished from.
#[derive(Debug, PartialEq, Eq)]
pub struct Post {
    pub author: String,
    pub body: String,
    /// Creation time in seconds since the Unix epoch.
    pub created_at: i64,
    pub crosspost_parent: Vec<Post>,
    /// Addresses of the gallery images, in display order.
    pub galleries: Option<Vec<String>>,
    pub id: String,
    pub num_comments: u64,
    /// Addresses of the preview image, from the lowest resolution to the highest.
    pub preview_image_urls: Option<Vec<String>>,
    pub score: i64,
    pub subreddit: String,
    pub title: String,
    pub url: String,
}

/// The mathematical value of a [`Post`].
pub struct PostView {
    pub author: Seq<char>,
    pub body: Seq<char>,
    pub created_at: int,
    pub crosspost_parent: Seq<PostView>,
    pub galleries: Option<Seq<Seq<char>>>,
    pub id: Seq<char>,
    pub num_comments: nat,
    pub preview_image_urls: Option<Seq<Seq<char>>>,
    pub score: int,
    pub subreddit: Seq<char>,
    pub title: Seq<char>,
    pub url: Seq<char>,
}

impl PostView {
    /// The item that a screen holds while it shows none: every text empty, every
    /// number zero, no media.
    pub open spec fn empty() -> PostView {
        PostView {
            author: Seq::empty(),
            body: Seq::empty(),
            created_at: 0,
            crosspost_parent: Seq::empty(),
            galleries: None,
            id: Seq::empty(),
            num_comments: 0,
            preview_image_urls: None,
            score: 0,
            subreddit: Seq::empty(),
            title: Seq::empty(),
            url: Seq::empty(),
        }
    }
}

/// The value of an item: its own fields and the values of its parents.
pub open spec fn post_view(post: Post) -> PostView
    decreases post,
{
    PostView {
        author: post.author@,
        body: post.body@,
        created_at: post.created_at as int,
        crosspost_parent: Seq::new(
            post.crosspost_parent@.len(),
            |i: int|
                if 0 <= i < post.crosspost_parent@.len() {
                    post_view(post.crosspost_parent@[i])
                } else {
                    arbitrary()
                },
        ),
        galleries: optional_strings_view(post.galleries),
        id: post.id@,
        num_comments: post.num_comments as nat,
        preview_image_urls: optional_strings_view(post.preview_image_urls),
        score: post.score as int,
        subreddit: post.subreddit@,
        title: post.title@,
        url: post.url@,
    }
}

impl View for Post {
    type V = PostView;

    open spec fn view(&self) -> PostView {
        post_view(*self)
    }
}

/// The mathematical value of a list of items.
pub open spec fn posts_view(posts: Seq<Post>) -> Seq<PostView> {
    Seq::new(posts.len(), |i: int| posts[i]@)
}

impl Post {
    /// Makes the item that an answer of the content service describes.
    pub fn from(value: PostData) -> (post: Post)
        ensures
            post@ == post_of(value),
    {
        convert_post(&value)
    }

    /// The value of an item lists the values of its parents, in order.
    pub proof fn lemma_view_parents(&self)
        ensures
            self@.crosspost_parent == posts_view(self.crosspost_parent@),
    {
        assert(self@.crosspost_parent =~= posts_view(self.crosspost_parent@));
    }
}

impl Default for Post {
    /// The empty item.
    fn default() -> (post: Post)
        ensures
            post@ == PostView::empty(),
    {
        let post = Post {
            author: String::new(),
            body: String::new(),
            created_at: 0,
            crosspost_parent: Vec::new(),
            galleries: None,
            id: String::new(),
            num_comments: 0,
            preview_image_urls: None,
            score: 0,
            subreddit: String::new(),
            title: String::new(),
            url: String::new(),
        };
        assert(post@.crosspost_parent =~= Seq::empty());
        post
    }
}

impl Clone for Post {
    /// Copies the item with its parents.
    fn clone(&self) -> (copy: Self)
        ensures
            copy@ == self@,
        decreases self,
    {
        let mut parents: Vec<Post> = Vec::new();
        let mut i: usize = 0;
        while i < self.crosspost_parent.len()
            invariant
                i <= self.crosspost_parent.len(),
                parents.len() == i,
                forall|j: int| 0 <= j < i ==> parents@[j]@ == self.crosspost_parent@[j]@,
            decreases self.crosspost_parent.len() - i,
        {
            parents.push(self.crosspost_parent[i].clone());
            i += 1;
        }
        let copy = Post {
            author: self.author.clone(),
            body: self.body.clone(),
            created_at: self.created_at,
            crosspost_parent: parents,
            galleries: clone_optional_strings(&self.galleries),
            id: self.id.clone(),
            num_comments: self.num_comments,
            preview_image_urls: clone_optional_strings(&self.preview_image_urls),
            score: self.score,
            subreddit: self.subreddit.clone(),
            title: self.title.clone(),
            url: self.url.clone(),
        };
        assert(copy@.crosspost_parent =~= self@.crosspost_parent);
        copy
    }
}

/// Copies a list of items.
pub fn clone_posts(posts: &Vec<Post>) -> (copy: Vec<Post>)
    ensures
        posts_view(copy@) == posts_view(posts@),
{
    let mut copy: Vec<Post> = Vec::new();
    let mut i: usize = 0;
    while i < posts.len()
        invariant
            i <= posts.len(),
            copy.len() == i,
            forall|j: int| 0 <= j < i ==> copy@[j]@ == posts@[j]@,
        decreases posts.len() - i,
    {
        copy.push(posts[i].clone());
        i += 1;
    }
    assert(posts_view(copy@) =~= posts_view(posts@));
    copy
}

} // verus!
