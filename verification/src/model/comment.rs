//! Replies to an item: a tree, and its flattening for list display.

use vstd::prelude::*;
use crate::reddit_api::{comment_of, convert_comment, CommentData};

verus! {

/// One reply with the replies made to it.
#[derive(Debug, PartialEq, Eq)]
pub struct Comment {
    pub body: String,
    pub author: String,
    pub score: i64,
    /// Creation time in seconds since the Unix epoch.
    pub created_at: i64,
    pub replies: Vec<Comment>,
}

/// The mathematical value of a [`Comment`].
pub struct CommentView {
    pub body: Seq<char>,
    pub author: Seq<char>,
    pub score: int,
    pub created_at: int,
    pub replies: Seq<CommentView>,
}

impl View for Comment {
    type V = CommentView;

    open spec fn view(&self) -> CommentView {
        comment_view(*self)
    }
}

/// The value of a reply: its own fields and the values of its children.
pub open spec fn comment_view(comment: Comment) -> CommentView
    decreases comment,
{
    CommentView {
        body: comment.body@,
        author: comment.author@,
        score: comment.score as int,
        created_at: comment.created_at as int,
        replies: Seq::new(
            comment.replies@.len(),
            |i: int|
                if 0 <= i < comment.replies@.len() {
                    comment_view(comment.replies@[i])
                } else {
                    arbitrary()
                },
        ),
    }
}

impl CommentView {
    /// The pre-order listing of this reply and everything below it: the reply
    /// itself at `depth`, then each child's listing one level deeper, children in
    /// order.
    pub open spec fn flatten(self, depth: nat) -> Seq<(nat, CommentView)>
        decreases self, 0nat,
    {
        seq![(depth, self)] + flatten_forest(self.replies, deeper(depth))
    }
}

/// The depth of a child of a reply at `depth`. Depths are machine words, so the
/// count stops at the largest one.
pub open spec fn deeper(depth: nat) -> nat {
    if depth < usize::MAX {
        depth + 1
    } else {
        depth
    }
}

/// The listings of sibling replies, one after another, all starting at `depth`.
pub open spec fn flatten_forest(replies: Seq<CommentView>, depth: nat) -> Seq<(nat, CommentView)>
    decreases replies, replies.len(),
{
    if replies.len() == 0 {
        Seq::empty()
    } else {
        flatten_forest(replies.drop_last(), depth) + replies.last().flatten(depth)
    }
}

/// The mathematical value of a depth-annotated listing.
pub open spec fn listing_view(entries: Seq<(usize, Comment)>) -> Seq<(nat, CommentView)> {
    Seq::new(entries.len(), |i: int| (entries[i].0 as nat, entries[i].1@))
}

/// The mathematical value of a sequence of replies.
pub open spec fn comments_view(comments: Seq<Comment>) -> Seq<CommentView> {
    Seq::new(comments.len(), |i: int| comments[i]@)
}

impl Clone for Comment {
    /// Copies the reply with all replies below it.
    fn clone(&self) -> (res: Self)
        ensures
            res@ == self@,
        decreases self,
    {
        let mut replies: Vec<Comment> = Vec::new();
        let mut i: usize = 0;
        while i < self.replies.len()
            invariant
                i <= self.replies.len(),
                replies.len() == i,
                forall|j: int| 0 <= j < i ==> replies@[j]@ == self.replies@[j]@,
            decreases self.replies.len() - i,
        {
            replies.push(self.replies[i].clone());
            i += 1;
        }
        let res = Comment {
            body: self.body.clone(),
            author: self.author.clone(),
            score: self.score,
            created_at: self.created_at,
            replies,
        };
        assert(res@.replies =~= self@.replies);
        res
    }
}

impl Comment {
    /// Makes the reply that an answer of the content service describes, with the
    /// replies below it.
    pub fn from(value: CommentData) -> (comment: Comment)
        ensures
            comment@ == comment_of(value),
    {
        convert_comment(&value)
    }

    /// Lists this reply and all replies below it in pre-order, each with its
    /// depth, starting at `depth`.
    pub fn flatten(&self, depth: usize) -> (out: Vec<(usize, Comment)>)
        ensures
            listing_view(out@) == self@.flatten(depth as nat),
        decreases self, 1nat,
    {
        let mut out: Vec<(usize, Comment)> = Vec::new();
        out.push((depth, self.clone()));
        let next: usize = if depth < usize::MAX {
            depth + 1
        } else {
            depth
        };
        let ghost head = out@;
        let mut below = flatten_all(&self.replies, next);
        let ghost tail = below@;
        out.append(&mut below);
        proof {
            assert(self@.replies =~= comments_view(self.replies@));
            assert(listing_view(out@) =~= listing_view(head) + listing_view(tail));
            assert(listing_view(head) =~= seq![(depth as nat, self@)]);
        }
        out
    }
}

/// Lists the given replies and all replies below them in pre-order, each with
/// its depth, the given replies at `depth`.
pub fn flatten_all(comments: &Vec<Comment>, depth: usize) -> (out: Vec<(usize, Comment)>)
    ensures
        listing_view(out@) == flatten_forest(comments_view(comments@), depth as nat),
    decreases comments, 0nat,
{
    let mut out: Vec<(usize, Comment)> = Vec::new();
    let ghost replies = comments_view(comments@);
    let mut i: usize = 0;
    assert(replies.take(0) =~= Seq::empty());
    assert(listing_view(out@) =~= Seq::empty());
    while i < comments.len()
        invariant
            i <= comments.len(),
            replies == comments_view(comments@),
            listing_view(out@) == flatten_forest(replies.take(i as int), depth as nat),
        decreases comments.len() - i,
    {
        let ghost before = out@;
        let mut below = comments[i].flatten(depth);
        let ghost added = below@;
        out.append(&mut below);
        proof {
            let prefix = replies.take(i as int + 1);
            assert(prefix.drop_last() =~= replies.take(i as int));
            assert(prefix.last() == comments@[i as int]@);
            assert(listing_view(out@) =~= listing_view(before) + listing_view(added));
        }
        i += 1;
    }
    assert(replies.take(i as int) =~= replies);
    out
}

} // verus!
