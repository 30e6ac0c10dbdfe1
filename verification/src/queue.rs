//! The erosion request queue.
//!
//! Callers enqueue opaque texture handles on the simulation side; once per
//! frame the render-preparation side selects at most one handle for erosion.
//! Selection policy: newest first.  `select` serves the most recently
//! enqueued handle and silently defers the older ones, so a burst of
//! enqueues within one frame is worked off newest to oldest, one per frame.
//! The queue holds handles only, never pixel data: ownership of the textures
//! stays with the resource system.

use vstd::prelude::*;

verus! {

/// An ordered sequence of texture handles awaiting erosion.
pub struct ErosionQueue<H>(pub Vec<H>);

/// What one selection does to the queued handles `q`: from a non-empty queue
/// the most recently enqueued handle is removed and returned; an empty queue
/// stays empty and yields nothing.
pub open spec fn select_spec<H>(q: Seq<H>) -> (Seq<H>, Option<H>) {
    if q.len() == 0 {
        (q, None)
    } else {
        (q.drop_last(), Some(q.last()))
    }
}

impl<H> ErosionQueue<H> {
    /// An empty queue.
    pub fn new() -> (q: Self)
        ensures
            q.0@ == Seq::<H>::empty(),
    {
        ErosionQueue(Vec::new())
    }

    /// Appends a handle; never blocks and never drops an entry.
    pub fn enqueue(&mut self, h: H)
        ensures
            final(self).0@ == old(self).0@.push(h),
    {
        self.0.push(h);
    }

    /// Removes and returns the entry to process next — the most recently
    /// enqueued one — or nothing if the queue is empty.  To be called at
    /// most once per frame.
    pub fn select(&mut self) -> (r: Option<H>)
        ensures
            (final(self).0@, r) == select_spec(old(self).0@),
            old(self).0@.len() == 0 ==> r is None && final(self).0@ == old(self).0@,
            old(self).0@.len() > 0 ==> r == Some(old(self).0@.last()) && final(self).0@ == old(
                self,
            ).0@.drop_last(),
    {
        let r = self.0.pop();
        proof {
            if old(self).0@.len() > 0 {
                assert(self.0@ =~= old(self).0@.drop_last());
            }
        }
        r
    }

    /// Number of handles still queued.
    pub fn len(&self) -> (n: usize)
        ensures
            n == self.0@.len(),
    {
        self.0.len()
    }

    /// Whether no handle is queued.
    pub fn is_empty(&self) -> (b: bool)
        ensures
            b == (self.0@.len() == 0),
    {
        self.0.len() == 0
    }
}

/// Law: enqueueing onto an empty queue and then selecting returns exactly
/// the just-enqueued handle and leaves the queue empty again.
pub proof fn lemma_select_returns_single_enqueued<H>(h: H)
    ensures
        select_spec(Seq::<H>::empty().push(h)).1 == Some(h),
        select_spec(Seq::<H>::empty().push(h)).0 == Seq::<H>::empty(),
{
    assert(Seq::<H>::empty().push(h).drop_last() =~= Seq::<H>::empty());
}

/// Law: two enqueues in the same frame followed by one select return exactly
/// the newer handle and leave exactly the older one still queued.
pub proof fn lemma_select_newest_of_two<H>(h1: H, h2: H)
    ensures
        select_spec(Seq::<H>::empty().push(h1).push(h2)).1 == Some(h2),
        select_spec(Seq::<H>::empty().push(h1).push(h2)).0 == Seq::<H>::empty().push(h1),
{
    assert(Seq::<H>::empty().push(h1).push(h2).drop_last() =~= Seq::<H>::empty().push(h1));
}

} // verus!
