//! One reply as the detail screen shows it, indented by its depth.

use vstd::prelude::*;
use crate::model::comment::{Comment, CommentView};
use crate::text::{strings_view, wrap_lines, wrapped};

verus! {

/// A reply laid out for display.
#[derive(Debug)]
pub struct CommentWidget {
    depth: u16,
    body_texts: Vec<String>,
    is_selected: bool,
    author: String,
    score: i64,
    created: i64,
}

/// The columns left for a reply at `depth` in a container `container_width`
/// columns wide: each level of depth takes two.
pub open spec fn text_width(depth: u16, container_width: u16) -> nat {
    if container_width > 2 * depth {
        (container_width - 2 * depth) as nat
    } else {
        0
    }
}

/// The number of rows of a reply with `lines` lines of text: the lines and two
/// rows of border; held at the largest machine word.
pub open spec fn widget_height(lines: nat) -> nat {
    if lines + 2 > usize::MAX {
        usize::MAX as nat
    } else {
        lines + 2
    }
}

impl CommentWidget {
    /// Lays `comment` out at `depth` in a container `container_width` columns
    /// wide: the text is wrapped to the columns that the indentation leaves.
    pub fn new(depth: u16, comment: Comment, is_selected: bool, container_width: u16) -> (widget:
        CommentWidget)
        ensures
            widget.lays_out(comment@, depth, is_selected, container_width),
    {
        let indent: u16 = if depth > u16::MAX / 2 {
            u16::MAX
        } else {
            depth * 2
        };
        let width: u16 = if container_width > indent {
            container_width - indent
        } else {
            0
        };
        let body_texts = wrap_lines(comment.body.as_str(), width as usize);
        CommentWidget {
            depth,
            body_texts,
            is_selected,
            author: comment.author,
            score: comment.score,
            created: comment.created_at,
        }
    }

    /// Whether the widget is `comment` laid out at `depth` in a container
    /// `container_width` columns wide, highlighted or not as `is_selected` says.
    pub open spec fn lays_out(
        &self,
        comment: CommentView,
        depth: u16,
        is_selected: bool,
        container_width: u16,
    ) -> bool {
        &&& self.spec_depth() == depth
        &&& strings_view(self.spec_body_texts()) == wrapped(
            comment.body,
            text_width(depth, container_width),
        )
        &&& self.spec_is_selected() == is_selected
        &&& self.spec_author() == comment.author
        &&& self.spec_score() == comment.score
        &&& self.spec_created() == comment.created_at
    }

    pub closed spec fn spec_depth(&self) -> u16 {
        self.depth
    }

    pub closed spec fn spec_body_texts(&self) -> Seq<String> {
        self.body_texts@
    }

    pub closed spec fn spec_is_selected(&self) -> bool {
        self.is_selected
    }

    pub closed spec fn spec_author(&self) -> Seq<char> {
        self.author@
    }

    pub closed spec fn spec_score(&self) -> int {
        self.score as int
    }

    pub closed spec fn spec_created(&self) -> int {
        self.created as int
    }

    /// The depth of the reply.
    #[verifier::when_used_as_spec(spec_depth)]
    pub fn depth(&self) -> (depth: u16)
        ensures
            depth == self.spec_depth(),
    {
        self.depth
    }

    /// The lines of the text.
    pub fn body_texts(&self) -> (lines: &Vec<String>)
        ensures
            lines@ == self.spec_body_texts(),
    {
        &self.body_texts
    }

    /// Whether the reply is highlighted.
    #[verifier::when_used_as_spec(spec_is_selected)]
    pub fn is_selected(&self) -> (selected: bool)
        ensures
            selected == self.spec_is_selected(),
    {
        self.is_selected
    }

    /// The author of the reply.
    pub fn author(&self) -> (author: &String)
        ensures
            author@ == self.spec_author(),
    {
        &self.author
    }

    /// The score of the reply.
    pub fn score(&self) -> (score: i64)
        ensures
            score == self.spec_score(),
    {
        self.score
    }

    /// The creation time of the reply in seconds since the Unix epoch.
    pub fn created(&self) -> (created: i64)
        ensures
            created == self.spec_created(),
    {
        self.created
    }

    /// The number of rows that the reply takes.
    pub fn height(&self) -> (rows: usize)
        ensures
            rows as nat == widget_height(self.spec_body_texts().len()),
    {
        self.body_texts.len().saturating_add(2)
    }
}

/// The depth at which a reply listed at `depth` is drawn: depths past the
/// largest column number are drawn at that number.
pub open spec fn drawn_depth(depth: nat) -> u16 {
    if depth > u16::MAX {
        u16::MAX
    } else {
        depth as u16
    }
}

/// The rows that the first `count` of `widgets` take together, held at the
/// largest row number.
pub open spec fn rows_of(widgets: Seq<CommentWidget>, count: nat) -> nat
    decreases count,
{
    if count == 0 || count > widgets.len() {
        0
    } else {
        let rows = rows_of(widgets, (count - 1) as nat) + widget_height(
            widgets[count - 1].spec_body_texts().len(),
        );
        if rows > u16::MAX {
            u16::MAX as nat
        } else {
            rows
        }
    }
}

/// Lays out every reply of a listing, in order, each at its depth and none
/// highlighted, in a container `container_width` columns wide.
pub fn layout_comments(listing: &Vec<(usize, Comment)>, container_width: u16) -> (widgets: Vec<
    CommentWidget,
>)
    ensures
        widgets@.len() == listing@.len(),
        forall|i: int|
            0 <= i < listing@.len() ==> (#[trigger] widgets@[i]).lays_out(
                listing@[i].1@,
                drawn_depth(listing@[i].0 as nat),
                false,
                container_width,
            ),
{
    let mut widgets: Vec<CommentWidget> = Vec::new();
    let mut i: usize = 0;
    while i < listing.len()
        invariant
            i <= listing.len(),
            widgets@.len() == i,
            forall|j: int|
                0 <= j < i ==> (#[trigger] widgets@[j]).lays_out(
                    listing@[j].1@,
                    drawn_depth(listing@[j].0 as nat),
                    false,
                    container_width,
                ),
        decreases listing.len() - i,
    {
        let depth: u16 = if listing[i].0 > u16::MAX as usize {
            u16::MAX
        } else {
            listing[i].0 as u16
        };
        let widget = CommentWidget::new(depth, listing[i].1.clone(), false, container_width);
        widgets.push(widget);
        i += 1;
    }
    widgets
}

/// The rows that `widgets` take together, held at the largest row number.
pub fn total_rows(widgets: &Vec<CommentWidget>) -> (rows: u16)
    ensures
        rows as nat == rows_of(widgets@, widgets@.len()),
{
    let mut rows: u16 = 0;
    let mut i: usize = 0;
    while i < widgets.len()
        invariant
            i <= widgets.len(),
            rows as nat == rows_of(widgets@, i as nat),
        decreases widgets.len() - i,
    {
        let height = widgets[i].height();
        rows = if height >= (u16::MAX - rows) as usize {
            u16::MAX
        } else {
            rows + height as u16
        };
        i += 1;
    }
    rows
}

} // verus!
