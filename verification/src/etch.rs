//! Sketch pad: the bounded stroke log of the sketch cart.
//!
//! Every stroke the cursor draws is appended to a log that holds at most
//! [`MAX_SEGMENTS`] strokes; when it is full, the oldest [`TRIM_COUNT`]
//! strokes are dropped before the new one is added. The strokes themselves
//! (their end points) and the cursor are continuous and belong to the host.

use vstd::prelude::*;

verus! {

/// Most strokes the log holds.
pub const MAX_SEGMENTS: usize = 10000;

/// Strokes dropped, oldest first, when a full log takes a new stroke.
pub const TRIM_COUNT: usize = 1000;

/// The log after appending `item` to `log`.
pub open spec fn appended<T>(log: Seq<T>, item: T) -> Seq<T> {
    if log.len() >= MAX_SEGMENTS {
        log.subrange(TRIM_COUNT as int, log.len() as int).push(item)
    } else {
        log.push(item)
    }
}

/// A log of strokes, oldest first, never longer than [`MAX_SEGMENTS`].
pub struct SegmentLog<T> {
    items: Vec<T>,
}

impl<T> SegmentLog<T> {
    #[verifier::type_invariant]
    spec fn bounded(self) -> bool {
        self.items@.len() <= MAX_SEGMENTS
    }

    /// The strokes, oldest first.
    pub closed spec fn view(self) -> Seq<T> {
        self.items@
    }

    /// An empty log.
    pub fn new() -> (l: Self)
        ensures
            l@.len() == 0,
    {
        SegmentLog { items: Vec::new() }
    }

    /// Number of strokes (never more than [`MAX_SEGMENTS`]).
    pub fn len(&self) -> (n: usize)
        ensures
            n == self@.len(),
            n <= MAX_SEGMENTS,
    {
        proof {
            use_type_invariant(self);
        }
        self.items.len()
    }

    /// The stroke at `i`, oldest first.
    pub fn get(&self, i: usize) -> (t: &T)
        requires
            i < self@.len(),
        ensures
            *t == self@[i as int],
    {
        &self.items[i]
    }

    /// Forgets every stroke.
    pub fn clear(&mut self)
        ensures
            final(self)@.len() == 0,
    {
        *self = SegmentLog { items: Vec::new() };
    }

    /// Appends a stroke; a full log first drops its oldest [`TRIM_COUNT`]
    /// strokes.
    pub fn push(&mut self, item: T)
        ensures
            final(self)@ == appended(old(self)@, item),
    {
        proof {
            use_type_invariant(&*self);
        }
        let mut all: Vec<T> = Vec::new();
        std::mem::swap(&mut all, &mut self.items);
        if all.len() >= MAX_SEGMENTS {
            let rest = all.split_off(TRIM_COUNT);
            all = rest;
        }
        all.push(item);
        *self = SegmentLog { items: all };
    }
}

/// The log never holds more than [`MAX_SEGMENTS`] strokes, the new stroke is
/// always the newest, and the strokes kept keep their order.
pub proof fn law_log_bounded_and_ordered<T>(log: Seq<T>, item: T)
    requires
        log.len() <= MAX_SEGMENTS,
    ensures
        appended(log, item).len() <= MAX_SEGMENTS,
        appended(log, item).last() == item,
        log.len() < MAX_SEGMENTS ==> appended(log, item).drop_last() == log,
        log.len() >= MAX_SEGMENTS ==> appended(log, item).drop_last() == log.subrange(
            TRIM_COUNT as int,
            log.len() as int,
        ),
{
    assert(log.push(item).drop_last() =~= log);
    assert(log.subrange(TRIM_COUNT as int, log.len() as int).push(item).drop_last() =~= log.subrange(
        TRIM_COUNT as int,
        log.len() as int,
    ));
}

} // verus!
