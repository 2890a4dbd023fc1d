//! The answers of the content service, as they arrive, and what the screens make
//! of them.

use vstd::prelude::*;
use crate::action::optional_string_view;
use crate::component::postdetail::replies_view;
use crate::component::postlist::outcome_view;
use crate::model::comment::{comments_view, Comment, CommentView};
use crate::model::post::{posts_view, Post, PostView};
use crate::text::{optional_strings_view, strings_view};

verus! {

/// One node of an answer.
#[derive(Debug, PartialEq, Eq)]
pub enum Data {
    Comment(CommentData),
    Post(PostData),
    Listing(ListingData),
    More(MoreData),
}

#[derive(Debug, PartialEq, Eq)]
pub struct Preview {
    pub images: Vec<Image>,
}

#[derive(Debug, PartialEq, Eq)]
pub struct Image {
    /// The same image from the lowest resolution to the highest.
    pub resolutions: Vec<ImageResolution>,
}

#[derive(Debug, PartialEq, Eq)]
pub struct ImageResolution {
    pub url: String,
    pub width: u16,
    pub height: u16,
}

#[derive(Debug, PartialEq, Eq)]
pub struct MoreData {
    pub count: u64,
    pub children: Vec<String>,
}

#[derive(Debug, PartialEq, Eq)]
pub struct ListingData {
    pub children: Vec<Data>,
}

#[derive(Debug, PartialEq, Eq)]
pub struct PostData {
    pub id: String,
    pub subreddit: String,
    pub author: String,
    pub title: String,
    pub selftext: String,
    pub url: String,
    pub num_comments: u64,
    pub score: i64,
    pub crosspost_parent_list: Vec<PostData>,
    pub preview: Option<Preview>,
    pub media_metadata: Option<MediaMetadata>,
    pub gallery_data: Option<GalleryData>,
    /// Creation time in seconds since the Unix epoch.
    pub created_utc: i64,
    pub media: Option<Media>,
}

#[derive(Debug, PartialEq, Eq)]
pub struct Media {
    pub reddit_video: Option<RedditVideo>,
}

#[derive(Debug, PartialEq, Eq)]
pub struct RedditVideo {
    pub hls_url: String,
}

/// The media that belong to an item.
#[derive(Debug, PartialEq, Eq)]
pub struct MediaMetadata {
    pub items: Vec<MediaItem>,
}

#[derive(Debug, PartialEq, Eq)]
pub struct MediaItem {
    pub status: String,
    pub e: String,
    pub m: String,
    /// The same image from the lowest resolution to the highest.
    pub p: Vec<MediaPreview>,
    pub id: String,
}

#[derive(Debug, PartialEq, Eq)]
pub struct MediaPreview {
    pub y: u32,
    pub x: u32,
    pub u: String,
}

/// The media of an item's gallery, in display order.
#[derive(Debug, PartialEq, Eq)]
pub struct GalleryData {
    pub items: Vec<GalleryItem>,
}

#[derive(Debug, PartialEq, Eq)]
pub struct GalleryItem {
    pub media_id: String,
}

#[derive(Debug, PartialEq, Eq)]
pub struct CommentData {
    pub body: String,
    pub author: String,
    pub score: i64,
    /// Creation time in seconds since the Unix epoch.
    pub created_utc: i64,
    pub replies: Option<Box<Data>>,
}

impl Data {
    /// The item that this node is.
    pub fn as_post(self) -> (data: PostData)
        requires
            self is Post,
        ensures
            data == self->Post_0,
    {
        match self {
            Data::Post(data) => data,
            _ => unreached(),
        }
    }

    /// The listing that this node is.
    pub fn as_listing(self) -> (data: ListingData)
        requires
            self is Listing,
        ensures
            data == self->Listing_0,
    {
        match self {
            Data::Listing(data) => data,
            _ => unreached(),
        }
    }

    /// The reply that this node is.
    pub fn as_comment(self) -> (data: CommentData)
        requires
            self is Comment,
        ensures
            data == self->Comment_0,
    {
        match self {
            Data::Comment(data) => data,
            _ => unreached(),
        }
    }

    /// The reply that this node is, if it is one.
    pub fn as_comment_opt(self) -> (data: Option<CommentData>)
        ensures
            data == (if self is Comment {
                Some(self->Comment_0)
            } else {
                None
            }),
    {
        match self {
            Data::Comment(data) => Some(data),
            _ => None,
        }
    }
}

/// The reply that an answer describes, with the replies below it. Replies that
/// are not given as a listing count as none, and only the replies of a listing
/// count, not its other nodes.
pub open spec fn comment_of(data: CommentData) -> CommentView
    decreases data,
{
    CommentView {
        body: data.body@,
        author: data.author@,
        score: data.score as int,
        created_at: data.created_utc as int,
        replies: match data.replies {
            Some(node) => comments_of(*node),
            None => Seq::empty(),
        },
    }
}

/// The replies that a listing holds, in order; none if the node is no listing.
pub open spec fn comments_of(data: Data) -> Seq<CommentView>
    decreases data,
{
    match data {
        Data::Listing(listing) => comments_among(listing.children@, listing.children@.len()),
        _ => Seq::empty(),
    }
}

/// The replies among the first `count` of `children`, in order.
pub open spec fn comments_among(children: Seq<Data>, count: nat) -> Seq<CommentView>
    decreases children, count,
{
    if count == 0 || count > children.len() {
        Seq::empty()
    } else {
        match children[count - 1] {
            Data::Comment(reply) => comments_among(children, (count - 1) as nat).push(
                comment_of(reply),
            ),
            _ => comments_among(children, (count - 1) as nat),
        }
    }
}

/// The addresses of an image's resolutions, in order.
pub open spec fn resolution_urls(resolutions: Seq<ImageResolution>) -> Seq<Seq<char>> {
    Seq::new(resolutions.len(), |i: int| resolutions[i].url@)
}

/// The addresses of the first preview image of an item, from the lowest
/// resolution to the highest.
pub open spec fn preview_urls(preview: Option<Preview>) -> Option<Seq<Seq<char>>> {
    match preview {
        Some(preview) => if preview.images@.len() > 0 {
            Some(resolution_urls(preview.images@[0].resolutions@))
        } else {
            None
        },
        None => None,
    }
}

/// The address of the highest resolution of the first of the first `count` media
/// that is called `id` and has a resolution.
pub open spec fn media_url(media: Seq<MediaItem>, id: Seq<char>, count: nat) -> Option<Seq<char>>
    decreases count,
{
    if count == 0 || count > media.len() {
        None
    } else {
        match media_url(media, id, (count - 1) as nat) {
            Some(url) => Some(url),
            None => if media[count - 1].id@ == id && media[count - 1].p@.len() > 0 {
                Some(media[count - 1].p@.last().u@)
            } else {
                None
            },
        }
    }
}

/// The addresses of the first `count` gallery entries, in order. An entry
/// without an address among `media` is left out.
pub open spec fn gallery_urls(entries: Seq<GalleryItem>, media: Seq<MediaItem>, count: nat) -> Seq<
    Seq<char>,
>
    decreases count,
{
    if count == 0 || count > entries.len() {
        Seq::empty()
    } else {
        match media_url(media, entries[count - 1].media_id@, media.len()) {
            Some(url) => gallery_urls(entries, media, (count - 1) as nat).push(url),
            None => gallery_urls(entries, media, (count - 1) as nat),
        }
    }
}

/// The addresses of an item's gallery images, in display order, if the item
/// has a gallery and media.
pub open spec fn gallery_of(gallery: Option<GalleryData>, metadata: Option<MediaMetadata>)
    -> Option<Seq<Seq<char>>> {
    match (gallery, metadata) {
        (Some(gallery), Some(metadata)) => Some(
            gallery_urls(gallery.items@, metadata.items@, gallery.items@.len()),
        ),
        _ => None,
    }
}

/// The item that an answer describes, with the items it was republished from.
pub open spec fn post_of(data: PostData) -> PostView
    decreases data,
{
    PostView {
        author: data.author@,
        body: data.selftext@,
        created_at: data.created_utc as int,
        crosspost_parent: Seq::new(
            data.crosspost_parent_list@.len(),
            |i: int|
                if 0 <= i < data.crosspost_parent_list@.len() {
                    post_of(data.crosspost_parent_list@[i])
                } else {
                    arbitrary()
                },
        ),
        galleries: gallery_of(data.gallery_data, data.media_metadata),
        id: data.id@,
        num_comments: data.num_comments as nat,
        preview_image_urls: preview_urls(data.preview),
        score: data.score as int,
        subreddit: data.subreddit@,
        title: data.title@,
        url: data.url@,
    }
}

/// The items among the first `count` of `children`, in order, if each of them is
/// an item.
pub open spec fn posts_among(children: Seq<Data>, count: nat) -> Option<Seq<PostView>>
    decreases count,
{
    if count == 0 || count > children.len() {
        Some(Seq::empty())
    } else {
        match (posts_among(children, (count - 1) as nat), children[count - 1]) {
            (Some(posts), Data::Post(post)) => Some(posts.push(post_of(post))),
            _ => None,
        }
    }
}

/// The items of a feed as the answer lists them: the node is a listing and each
/// of its children is an item. Any other answer is a failed fetch.
pub open spec fn posts_of(data: Data) -> Option<Seq<PostView>> {
    match data {
        Data::Listing(listing) => posts_among(listing.children@, listing.children@.len()),
        _ => None,
    }
}

/// The top-level replies to an item as the answer lists them: the node is a
/// listing, and its replies count. Any other answer is a failed fetch.
pub open spec fn replies_of(data: Data) -> Option<Seq<CommentView>> {
    match data {
        Data::Listing(listing) => Some(comments_of(data)),
        _ => None,
    }
}

/// Once a medium is found among the first media, more media do not change which
/// one is found.
pub proof fn lemma_media_url_stays(media: Seq<MediaItem>, id: Seq<char>, found: nat, count: nat)
    requires
        media_url(media, id, found) is Some,
        found <= count <= media.len(),
    ensures
        media_url(media, id, count) == media_url(media, id, found),
    decreases count,
{
    if count > found {
        lemma_media_url_stays(media, id, found, (count - 1) as nat);
    }
}

/// Finds the address of the highest resolution of the first medium that is
/// called `id` and has a resolution.
pub fn find_media_url(media: &Vec<MediaItem>, id: &String) -> (url: Option<String>)
    ensures
        optional_string_view(url) == media_url(media@, id@, media@.len()),
{
    let mut i: usize = 0;
    while i < media.len()
        invariant
            i <= media.len(),
            media_url(media@, id@, i as nat) is None,
        decreases media.len() - i,
    {
        if media[i].id == *id && media[i].p.len() > 0 {
            let previews = &media[i].p;
            let url = previews[previews.len() - 1].u.clone();
            proof {
                assert(media_url(media@, id@, (i + 1) as nat) == Some(url@));
                lemma_media_url_stays(media@, id@, (i + 1) as nat, media@.len());
            }
            return Some(url);
        }
        i += 1;
    }
    None
}

/// Lists the addresses of an item's gallery images, in display order.
pub fn convert_gallery(gallery: &Option<GalleryData>, metadata: &Option<MediaMetadata>) -> (urls:
    Option<Vec<String>>)
    ensures
        optional_strings_view(urls) == gallery_of(*gallery, *metadata),
{
    match (gallery, metadata) {
        (Some(gallery), Some(metadata)) => {
            let mut urls: Vec<String> = Vec::new();
            let mut i: usize = 0;
            assert(strings_view(urls@) =~= Seq::empty());
            while i < gallery.items.len()
                invariant
                    i <= gallery.items.len(),
                    strings_view(urls@) == gallery_urls(
                        gallery.items@,
                        metadata.items@,
                        i as nat,
                    ),
                decreases gallery.items.len() - i,
            {
                let ghost before = urls@;
                if let Some(url) = find_media_url(&metadata.items, &gallery.items[i].media_id) {
                    urls.push(url);
                    assert(strings_view(urls@) =~= strings_view(before).push(url@));
                }
                i += 1;
            }
            Some(urls)
        },
        _ => None,
    }
}

/// Lists the addresses of the first preview image of an item.
pub fn convert_preview(preview: &Option<Preview>) -> (urls: Option<Vec<String>>)
    ensures
        optional_strings_view(urls) == preview_urls(*preview),
{
    match preview {
        Some(preview) => if preview.images.len() > 0 {
            let resolutions = &preview.images[0].resolutions;
            let mut urls: Vec<String> = Vec::new();
            let mut i: usize = 0;
            while i < resolutions.len()
                invariant
                    i <= resolutions.len(),
                    urls.len() == i,
                    forall|j: int| 0 <= j < i ==> urls@[j]@ == resolutions@[j].url@,
                decreases resolutions.len() - i,
            {
                urls.push(resolutions[i].url.clone());
                i += 1;
            }
            assert(strings_view(urls@) =~= resolution_urls(resolutions@));
            Some(urls)
        } else {
            None
        },
        None => None,
    }
}

/// Makes the item that an answer describes.
pub fn convert_post(value: &PostData) -> (post: Post)
    ensures
        post@ == post_of(*value),
    decreases value,
{
    let mut parents: Vec<Post> = Vec::new();
    let mut i: usize = 0;
    while i < value.crosspost_parent_list.len()
        invariant
            i <= value.crosspost_parent_list.len(),
            parents.len() == i,
            forall|j: int| 0 <= j < i ==> parents@[j]@ == post_of(value.crosspost_parent_list@[j]),
        decreases value.crosspost_parent_list.len() - i,
    {
        parents.push(convert_post(&value.crosspost_parent_list[i]));
        i += 1;
    }
    let post = Post {
        author: value.author.clone(),
        body: value.selftext.clone(),
        created_at: value.created_utc,
        crosspost_parent: parents,
        galleries: convert_gallery(&value.gallery_data, &value.media_metadata),
        id: value.id.clone(),
        num_comments: value.num_comments,
        preview_image_urls: convert_preview(&value.preview),
        score: value.score,
        subreddit: value.subreddit.clone(),
        title: value.title.clone(),
        url: value.url.clone(),
    };
    assert(post@.crosspost_parent =~= post_of(*value).crosspost_parent);
    post
}

/// Makes the reply that an answer describes, with the replies below it.
pub fn convert_comment(value: &CommentData) -> (comment: Comment)
    ensures
        comment@ == comment_of(*value),
    decreases value,
{
    let replies = match &value.replies {
        Some(node) => convert_comments(&**node),
        None => Vec::new(),
    };
    let comment = Comment {
        body: value.body.clone(),
        author: value.author.clone(),
        score: value.score,
        created_at: value.created_utc,
        replies,
    };
    assert(comment@.replies =~= comments_view(replies@));
    assert(comment@.replies =~= comment_of(*value).replies);
    comment
}

/// Makes the replies that a listing holds, in order; none if the node is no
/// listing.
pub fn convert_comments(data: &Data) -> (replies: Vec<Comment>)
    ensures
        comments_view(replies@) == comments_of(*data),
    decreases data,
{
    let mut replies: Vec<Comment> = Vec::new();
    assert(comments_view(replies@) =~= Seq::empty());
    if let Data::Listing(listing) = data {
        let mut i: usize = 0;
        while i < listing.children.len()
            invariant
                i <= listing.children.len(),
                *data == Data::Listing(*listing),
                comments_view(replies@) == comments_among(listing.children@, i as nat),
            decreases listing.children.len() - i,
        {
            let ghost before = replies@;
            if let Data::Comment(reply) = &listing.children[i] {
                proof {
                    assert(decreases_to!(*data => data->Listing_0));
                    let node = listing.children[i as int];
                    assert(decreases_to!(node => node->Comment_0));
                }
                let comment = convert_comment(reply);
                replies.push(comment);
                assert(comments_view(replies@) =~= comments_view(before).push(comment@));
            }
            i += 1;
        }
    }
    replies
}

/// Makes the items of a feed from the answer to a fetch, or `None` if the answer
/// is not a listing of items.
pub fn listing_posts(data: &Data) -> (posts: Option<Vec<Post>>)
    ensures
        outcome_view(posts) == posts_of(*data),
{
    match data {
        Data::Listing(listing) => {
            let mut posts: Vec<Post> = Vec::new();
            let mut i: usize = 0;
            assert(posts_view(posts@) =~= Seq::empty());
            while i < listing.children.len()
                invariant
                    i <= listing.children.len(),
                    *data == Data::Listing(*listing),
                    posts_among(listing.children@, i as nat) == Some(posts_view(posts@)),
                decreases listing.children.len() - i,
            {
                let ghost before = posts@;
                match &listing.children[i] {
                    Data::Post(item) => {
                        let post = convert_post(item);
                        posts.push(post);
                        assert(posts_view(posts@) =~= posts_view(before).push(post@));
                    },
                    _ => {
                        proof {
                            lemma_posts_among_fails(
                                listing.children@,
                                (i + 1) as nat,
                                listing.children@.len(),
                            );
                        }
                        return None;
                    },
                }
                i += 1;
            }
            Some(posts)
        },
        _ => None,
    }
}

/// Once a child that is no item is among the first children, more children do
/// not make a list of items.
pub proof fn lemma_posts_among_fails(children: Seq<Data>, failed: nat, count: nat)
    requires
        posts_among(children, failed) is None,
        failed <= count <= children.len(),
    ensures
        posts_among(children, count) is None,
    decreases count,
{
    if count > failed {
        lemma_posts_among_fails(children, failed, (count - 1) as nat);
    }
}

/// Makes the top-level replies to an item from the answer to a fetch, or `None`
/// if the answer is not a listing.
pub fn listing_comments(data: &Data) -> (replies: Option<Vec<Comment>>)
    ensures
        replies_view(replies) == replies_of(*data),
{
    match data {
        Data::Listing(listing) => Some(convert_comments(data)),
        _ => None,
    }
}

} // verus!
