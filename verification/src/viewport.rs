//! The scrollable viewport: which slice of the entry list is on screen.
//!
//! `compute` re-derives the first visible index from scratch whenever the
//! pivot or the row capacity changes, so no error can drift in across
//! directory switches or resizes.

use vstd::prelude::*;

verus! {

/// A terminal region: a position and a width and height in character cells.
#[derive(Clone, Copy, Debug)]
pub struct Rect {
    x: usize,
    y: usize,
    w: usize,
    h: usize,
}

/// The model of a terminal region.
pub ghost struct RectV {
    /// Leftmost column.
    pub x: usize,
    /// Topmost row.
    pub y: usize,
    /// Width in columns.
    pub w: usize,
    /// Height in rows.
    pub h: usize,
}

impl View for Rect {
    type V = RectV;

    closed spec fn view(&self) -> RectV {
        RectV { x: self.x, y: self.y, w: self.w, h: self.h }
    }
}

impl Rect {
    /// A region at the given position with the given size.
    pub fn new(x: usize, y: usize, w: usize, h: usize) -> (r: Rect)
        ensures
            r@ == (RectV { x, y, w, h }),
    {
        Rect { x, y, w, h }
    }

    /// Changes the size, keeping the position.
    pub fn resize(&mut self, w: usize, h: usize)
        ensures
            final(self)@ == (RectV { x: old(self)@.x, y: old(self)@.y, w, h }),
    {
        self.w = w;
        self.h = h;
    }

    /// Width in columns.
    pub fn width(&self) -> (r: usize)
        ensures
            r == self@.w,
    {
        self.w
    }

    /// Height in rows.
    pub fn height(&self) -> (r: usize)
        ensures
            r == self@.h,
    {
        self.h
    }
}

/// The first visible index after following the pivot: keep the old offset if
/// the pivot is already visible, otherwise move just far enough, and clamp
/// so no row capacity is wasted below the end of the list.
pub open spec fn spec_compute(offset: int, pivot: int, capacity: int, total: int) -> int {
    let raw = if pivot < offset {
        pivot
    } else if pivot >= offset + capacity {
        pivot + 1 - capacity
    } else {
        offset
    };
    let max_offset = if total > capacity {
        total - capacity
    } else {
        0
    };
    if raw > max_offset {
        max_offset
    } else {
        raw
    }
}

/// Re-derives the first visible index so that the pivot row is on screen.
pub fn compute(offset: usize, pivot: usize, capacity: usize, total: usize) -> (r: usize)
    requires
        capacity >= 1,
        pivot < total,
    ensures
        r == spec_compute(offset as int, pivot as int, capacity as int, total as int),
        r <= pivot < r + capacity,
        total > capacity ==> r + capacity <= total,
        total <= capacity ==> r == 0,
{
    let raw = if pivot < offset {
        pivot
    } else if pivot - offset >= capacity {
        pivot - (capacity - 1)
    } else {
        offset
    };
    let max_offset = if total > capacity {
        total - capacity
    } else {
        0
    };
    if raw > max_offset {
        max_offset
    } else {
        raw
    }
}

/// Whatever offset earlier moves and resizes left behind, one re-derivation
/// puts the pivot row inside the visible window and wastes no row capacity
/// below the end of the list.
pub proof fn lemma_viewport_invariant(offset: int, pivot: int, capacity: int, total: int)
    requires
        capacity >= 1,
        0 <= offset,
        0 <= pivot < total,
    ensures
        ({
            let r = spec_compute(offset, pivot, capacity, total);
            &&& r <= pivot < r + capacity
            &&& 0 <= r
            &&& total > capacity ==> r + capacity <= total
            &&& total <= capacity ==> r == 0
        }),
{
}

/// Re-deriving the offset is stable: feeding `compute`'s result back in with
/// the same pivot, capacity and total returns the same offset, so repeated
/// renders without input changes do not jitter.
pub proof fn lemma_compute_stable(offset: int, pivot: int, capacity: int, total: int)
    requires
        capacity >= 1,
        0 <= pivot < total,
    ensures
        spec_compute(spec_compute(offset, pivot, capacity, total), pivot, capacity, total)
            == spec_compute(offset, pivot, capacity, total),
{
}

} // verus!
