//! Image sequences with a current image, cycled through with wraparound.

use vstd::prelude::*;
use vstd::arithmetic::div_mod::{lemma_mod_self_0, lemma_small_mod};

verus! {

/// A non-empty sequence of images, one of which is shown.
#[derive(Debug)]
pub struct Gallery<I> {
    index: usize,
    images: Vec<I>,
}

/// The mathematical value of a [`Gallery`].
pub struct GalleryView<I> {
    /// The position of the image shown.
    pub index: nat,
    /// The images, in display order.
    pub images: Seq<I>,
}

impl<I> GalleryView<I> {
    /// The image shown is one of the images.
    pub open spec fn wf(self) -> bool {
        self.index < self.images.len()
    }

    /// The gallery that shows the first of `images`.
    pub open spec fn starting(images: Seq<I>) -> GalleryView<I> {
        GalleryView { index: 0, images }
    }

    /// The gallery after a step forward: the next image, and after the last one
    /// the first.
    pub open spec fn next(self) -> GalleryView<I> {
        GalleryView { index: ((self.index + 1) % self.images.len()) as nat, ..self }
    }

    /// The gallery after a step back: the previous image, and before the first one
    /// the last.
    pub open spec fn previous(self) -> GalleryView<I> {
        GalleryView {
            index: if self.index == 0 {
                (self.images.len() - 1) as nat
            } else {
                (self.index - 1) as nat
            },
            ..self
        }
    }
}

impl<I> GalleryView<I> {
    /// The gallery after one step, forward or back.
    pub open spec fn step(self, forward: bool) -> GalleryView<I> {
        if forward {
            self.next()
        } else {
            self.previous()
        }
    }
}

/// Each gallery of the list after one step, forward or back.
pub open spec fn stepped_galleries<I>(galleries: Seq<GalleryView<I>>, forward: bool) -> Seq<
    GalleryView<I>,
> {
    Seq::new(galleries.len(), |i: int| galleries[i].step(forward))
}

impl<I> View for Gallery<I> {
    type V = GalleryView<I>;

    closed spec fn view(&self) -> GalleryView<I> {
        GalleryView { index: self.index as nat, images: self.images@ }
    }
}

/// The mathematical value of a list of galleries.
pub open spec fn galleries_view<I>(galleries: Seq<Gallery<I>>) -> Seq<GalleryView<I>> {
    Seq::new(galleries.len(), |i: int| galleries[i]@)
}

/// Whether each gallery of the list shows one of its images.
pub open spec fn galleries_wf<I>(galleries: Seq<GalleryView<I>>) -> bool {
    forall|i: int| 0 <= i < galleries.len() ==> (#[trigger] galleries[i]).wf()
}

/// The images among `results`, in order: a result is `None` where an image could
/// not be fetched or decoded.
pub open spec fn decoded<I>(results: Seq<Option<I>>) -> Seq<I>
    decreases results.len(),
{
    if results.len() == 0 {
        Seq::empty()
    } else {
        match results.last() {
            Some(image) => decoded(results.drop_last()).push(image),
            None => decoded(results.drop_last()),
        }
    }
}

/// The galleries made of `results`, one list of results per gallery: each holds
/// the images of its list and shows the first; a list without an image gives no
/// gallery.
pub open spec fn kept_galleries<I>(results: Seq<Seq<Option<I>>>) -> Seq<GalleryView<I>>
    decreases results.len(),
{
    if results.len() == 0 {
        Seq::empty()
    } else {
        let images = decoded(results.last());
        if images.len() > 0 {
            kept_galleries(results.drop_last()).push(GalleryView::starting(images))
        } else {
            kept_galleries(results.drop_last())
        }
    }
}

/// Whether one of the lists of `results` lacks an image.
pub open spec fn any_missing<I>(results: Seq<Seq<Option<I>>>) -> bool
    decreases results.len(),
{
    results.len() > 0 && (any_missing(results.drop_last()) || decoded(results.last()).len()
        < results.last().len())
}

/// The mathematical value of a list of lists of results.
pub open spec fn result_lists_view<I>(results: Seq<Vec<Option<I>>>) -> Seq<Seq<Option<I>>> {
    Seq::new(results.len(), |i: int| results[i]@)
}

/// Each gallery made of results shows one of its images.
pub proof fn lemma_kept_galleries_wf<I>(results: Seq<Seq<Option<I>>>)
    ensures
        galleries_wf(kept_galleries(results)),
    decreases results.len(),
{
    if results.len() > 0 {
        lemma_kept_galleries_wf(results.drop_last());
    }
}

/// Keeps the images among `results`, in order.
pub fn keep_decoded<I>(results: Vec<Option<I>>) -> (images: Vec<I>)
    ensures
        images@ == decoded(results@),
{
    let mut images: Vec<I> = Vec::new();
    let ghost all = results@;
    assert(all.take(0) =~= Seq::empty());
    for item in it: results
        invariant
            it.seq() == all,
            images@ == decoded(all.take(it.index() as int)),
    {
        proof {
            let prefix = all.take(it.index() + 1);
            assert(prefix.drop_last() =~= all.take(it.index() as int));
            assert(prefix.last() == item);
        }
        if let Some(image) = item {
            images.push(image);
        }
    }
    assert(all.take(all.len() as int) =~= all);
    images
}

impl<I> Gallery<I> {
    /// The gallery over `images` that shows the first one, or `None` if there is
    /// no image.
    pub fn new(images: Vec<I>) -> (gallery: Option<Gallery<I>>)
        ensures
            images@.len() == 0 ==> gallery.is_none(),
            images@.len() > 0 ==> gallery.is_some() && gallery.unwrap()@ == GalleryView::starting(
                images@,
            ) && gallery.unwrap()@.wf(),
    {
        if images.len() == 0 {
            None
        } else {
            Some(Gallery { index: 0, images })
        }
    }

    /// The position of the image shown.
    pub fn index(&self) -> (index: usize)
        ensures
            index as nat == self@.index,
    {
        self.index
    }

    /// The images, in display order.
    pub fn images(&self) -> (images: &Vec<I>)
        ensures
            images@ == self@.images,
    {
        &self.images
    }

    /// The image shown.
    pub fn current(&self) -> (image: &I)
        requires
            self@.wf(),
        ensures
            *image == self@.images[self@.index as int],
    {
        &self.images[self.index]
    }

    /// Steps to the next image, and from the last one to the first.
    pub fn next(&mut self)
        requires
            old(self)@.wf(),
        ensures
            final(self)@ == old(self)@.next(),
            final(self)@.wf(),
    {
        assert(self.index < self.images.len());
        if self.index + 1 < self.images.len() {
            proof {
                lemma_small_mod((self.index + 1) as nat, self.images.len() as nat);
            }
            self.index = self.index + 1;
        } else {
            proof {
                lemma_mod_self_0(self.images.len() as int);
            }
            self.index = 0;
        }
    }

    /// Steps to the previous image, and from the first one to the last.
    pub fn previous(&mut self)
        requires
            old(self)@.wf(),
        ensures
            final(self)@ == old(self)@.previous(),
            final(self)@.wf(),
    {
        if self.index == 0 {
            self.index = self.images.len() - 1;
        } else {
            self.index = self.index - 1;
        }
    }
}

/// Steps every gallery of the list once, forward or back.
pub fn step_galleries<I>(galleries: Vec<Gallery<I>>, forward: bool) -> (out: Vec<Gallery<I>>)
    requires
        galleries_wf(galleries_view(galleries@)),
    ensures
        galleries_view(out@) == stepped_galleries(galleries_view(galleries@), forward),
        galleries_wf(galleries_view(out@)),
{
    let mut out: Vec<Gallery<I>> = Vec::new();
    let ghost all = galleries@;
    for gallery in it: galleries
        invariant
            it.seq() == all,
            galleries_wf(galleries_view(all)),
            out@.len() == it.index(),
            forall|i: int| 0 <= i < it.index() ==> (#[trigger] out@[i])@ == all[i]@.step(forward),
            forall|i: int| 0 <= i < it.index() ==> (#[trigger] out@[i])@.wf(),
    {
        let mut gallery = gallery;
        assert(galleries_view(all)[it.index() as int].wf());
        if forward {
            gallery.next();
        } else {
            gallery.previous();
        }
        out.push(gallery);
    }
    assert(galleries_view(out@) =~= stepped_galleries(galleries_view(all), forward));
    out
}

/// Makes the galleries of `results`, one list of results per gallery, and says
/// whether an image is missing from one of them.
pub fn keep_galleries<I>(results: Vec<Vec<Option<I>>>) -> (out: (Vec<Gallery<I>>, bool))
    ensures
        galleries_view(out.0@) == kept_galleries(result_lists_view(results@)),
        galleries_wf(galleries_view(out.0@)),
        out.1 == any_missing(result_lists_view(results@)),
{
    let mut galleries: Vec<Gallery<I>> = Vec::new();
    let mut missing = false;
    let ghost all = results@;
    let ghost lists = result_lists_view(all);
    assert(lists.take(0) =~= Seq::empty());
    assert(galleries_view(galleries@) =~= Seq::empty());
    for list in it: results
        invariant
            it.seq() == all,
            lists == result_lists_view(all),
            galleries_view(galleries@) == kept_galleries(lists.take(it.index() as int)),
            galleries_wf(galleries_view(galleries@)),
            missing == any_missing(lists.take(it.index() as int)),
    {
        let ghost before = galleries@;
        proof {
            let prefix = lists.take(it.index() + 1);
            assert(prefix.drop_last() =~= lists.take(it.index() as int));
            assert(prefix.last() == list@);
        }
        let total = list.len();
        let images = keep_decoded(list);
        if images.len() < total {
            missing = true;
        }
        if let Some(gallery) = Gallery::new(images) {
            galleries.push(gallery);
            assert(galleries_view(galleries@) =~= galleries_view(before).push(gallery@));
        }
    }
    assert(lists.take(lists.len() as int) =~= lists);
    (galleries, missing)
}

} // verus!
