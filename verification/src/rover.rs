//! The selection list: an entry list, a pivot, and the visible window.
//!
//! `Rover` owns the ordered components, the pivot (the highlighted index),
//! and the viewport bookkeeping. The pivot moves with cyclic wraparound and
//! the offset is re-derived before every render so the pivot stays visible.

use vstd::prelude::*;

use crate::errors::NavError;
use crate::viewport::{compute, spec_compute};

verus! {

/// Which way the pivot moves.
#[derive(Clone, Copy, Debug, PartialEq, Eq, Structural)]
pub enum Direction {
    /// Toward index 0, wrapping to the last entry from the first.
    Up,
    /// Toward the last index, wrapping to 0 from the last entry.
    Down,
}

/// Viewport bookkeeping: first visible index, pivot, and row capacity.
struct Context {
    offset: usize,
    pivot: Option<usize>,
    max_visible_rows: usize,
}

/// A scrollable selection list over components of type `C`.
pub struct Rover<C: DeepView> {
    components: Vec<C>,
    ctx: Context,
}

/// The model of a `Rover`: its entries, selection, and visible window.
#[verifier::reject_recursive_types(V)]
pub ghost struct RoverView<V> {
    /// The listed components, in order.
    pub entries: Seq<V>,
    /// First visible index.
    pub offset: usize,
    /// The highlighted index; `None` only while the list is empty.
    pub pivot: Option<usize>,
    /// Maximum number of visible rows; always at least 1.
    pub capacity: usize,
}

impl<V> RoverView<V> {
    /// Well-formedness: the pivot is defined and in range exactly when the
    /// list is non-empty, and at least one row is always visible.
    pub open spec fn wf(self) -> bool {
        &&& self.capacity >= 1
        &&& (self.entries.len() > 0 <==> self.pivot is Some)
        &&& (self.pivot is Some ==> (self.pivot->Some_0 as int) < self.entries.len())
    }
}

impl<C: DeepView> View for Rover<C> {
    type V = RoverView<C::V>;

    closed spec fn view(&self) -> RoverView<C::V> {
        RoverView {
            entries: self.components.deep_view(),
            offset: self.ctx.offset,
            pivot: self.ctx.pivot,
            capacity: self.ctx.max_visible_rows,
        }
    }
}

/// Where the pivot lands when it moves one step through a ring of `len`
/// entries: up from 0 wraps to `len - 1`, down from `len - 1` wraps to 0,
/// and every other step moves by exactly one.
pub open spec fn spec_shift(pivot: int, d: Direction, len: int) -> int {
    match d {
        Direction::Up => if pivot == 0 {
            len - 1
        } else {
            pivot - 1
        },
        Direction::Down => if pivot + 1 == len {
            0
        } else {
            pivot + 1
        },
    }
}

impl<C: DeepView> Rover<C> {
    /// An empty list with room for `height` visible rows (at least one row
    /// is always kept visible, so a zero height is treated as one).
    pub fn new(height: usize) -> (r: Rover<C>)
        ensures
            r@.entries.len() == 0,
            r@.pivot is None,
            r@.offset == 0,
            r@.capacity == (if height >= 1 {
                height
            } else {
                1
            }),
            r@.wf(),
    {
        let capacity = if height >= 1 {
            height
        } else {
            1
        };
        Rover {
            components: Vec::new(),
            ctx: Context { offset: 0, pivot: None, max_visible_rows: capacity },
        }
    }

    /// Replaces the component list outright; the pivot returns to the first
    /// entry and the window to the top.
    pub fn reset(&mut self, new_components: Vec<C>)
        ensures
            final(self)@.entries == new_components.deep_view(),
            final(self)@.capacity == old(self)@.capacity,
            final(self)@.offset == 0,
            new_components.deep_view().len() > 0 ==> final(self)@.pivot == Some(0usize),
            new_components.deep_view().len() == 0 ==> final(self)@.pivot is None,
            old(self)@.wf() ==> final(self)@.wf(),
    {
        self.components = new_components;
        self.ctx.pivot = if self.components.len() > 0 {
            Some(0)
        } else {
            None
        };
        self.ctx.offset = 0;
    }

    /// How many components are listed.
    pub fn len(&self) -> (r: usize)
        ensures
            r == self@.entries.len(),
    {
        self.components.len()
    }

    /// The pivot: the highlighted index, if any.
    pub fn pivot(&self) -> (r: Option<usize>)
        ensures
            r == self@.pivot,
    {
        self.ctx.pivot
    }

    /// First visible index.
    pub fn offset(&self) -> (r: usize)
        ensures
            r == self@.offset,
    {
        self.ctx.offset
    }

    /// Maximum number of visible rows.
    pub fn capacity(&self) -> (r: usize)
        ensures
            r == self@.capacity,
    {
        self.ctx.max_visible_rows
    }

    /// The component at the given index.
    pub fn get(&self, i: usize) -> (r: &C)
        requires
            (i as int) < self@.entries.len(),
        ensures
            r.deep_view() == self@.entries[i as int],
    {
        &self.components[i]
    }

    /// The highlighted component, if any.
    pub fn selected_ref(&self) -> (r: Option<&C>)
        ensures
            (self@.pivot is Some && (self@.pivot->Some_0 as int) < self@.entries.len()) ==> r
                is Some && r->Some_0.deep_view() == self@.entries[self@.pivot->Some_0 as int],
            !(self@.pivot is Some && (self@.pivot->Some_0 as int) < self@.entries.len()) ==> r
                is None,
    {
        match self.ctx.pivot {
            Some(p) => {
                if p < self.components.len() {
                    Some(&self.components[p])
                } else {
                    None
                }
            },
            None => None,
        }
    }

    /// Selects the given index, or rejects it as out of range, leaving the
    /// whole state unchanged. Never panics on a stale index.
    pub fn set_selected(&mut self, idx: usize) -> (r: Result<(), NavError>)
        ensures
            (idx as int) < old(self)@.entries.len() ==> {
                &&& r is Ok
                &&& final(self)@ == (RoverView { pivot: Some(idx), ..old(self)@ })
            },
            (idx as int) >= old(self)@.entries.len() ==> {
                &&& r == Result::<(), NavError>::Err(NavError::IndexOutOfRange)
                &&& *final(self) == *old(self)
            },
            old(self)@.wf() ==> final(self)@.wf(),
    {
        if idx < self.components.len() {
            self.ctx.pivot = Some(idx);
            Ok(())
        } else {
            Err(NavError::IndexOutOfRange)
        }
    }

    /// Moves the pivot one step with cyclic wraparound; a no-op while the
    /// list is empty.
    pub fn shift(&mut self, d: Direction)
        requires
            old(self)@.wf(),
        ensures
            final(self)@.entries == old(self)@.entries,
            final(self)@.capacity == old(self)@.capacity,
            final(self)@.offset == old(self)@.offset,
            old(self)@.pivot is None ==> *final(self) == *old(self),
            old(self)@.pivot is Some ==> final(self)@.pivot is Some
                && (final(self)@.pivot->Some_0 as int) == spec_shift(
                old(self)@.pivot->Some_0 as int,
                d,
                old(self)@.entries.len() as int,
            ),
            final(self)@.wf(),
    {
        let len = self.components.len();
        let pivot = match self.ctx.pivot {
            Some(p) => p,
            None => {
                return ;
            },
        };
        match d {
            Direction::Up => {
                if pivot == 0 {
                    self.ctx.pivot = Some(len - 1);
                } else {
                    self.ctx.pivot = Some(pivot - 1);
                }
            },
            Direction::Down => {
                self.ctx.pivot = Some((pivot + 1) % len);
                proof {
                    if pivot + 1 == len {
                        assert((pivot + 1) as int % (len as int) == 0) by (nonlinear_arith)
                            requires
                                pivot + 1 == len,
                                len >= 1,
                        ;
                    } else {
                        assert((pivot + 1) as int % (len as int) == pivot + 1) by (nonlinear_arith)
                            requires
                                0 <= pivot + 1 < len,
                        ;
                    }
                }
            },
        }
    }

    /// Changes the row capacity (a terminal resize); at least one row stays
    /// visible. The offset is re-derived at the next render.
    pub fn resize(&mut self, height: usize)
        ensures
            final(self)@.entries == old(self)@.entries,
            final(self)@.pivot == old(self)@.pivot,
            final(self)@.offset == old(self)@.offset,
            final(self)@.capacity == (if height >= 1 {
                height
            } else {
                1
            }),
            old(self)@.wf() ==> final(self)@.wf(),
    {
        self.ctx.max_visible_rows = if height >= 1 {
            height
        } else {
            1
        };
    }

    /// Re-derives the visible window around the pivot and returns it as a
    /// half-open index range. After this call the pivot row is on screen:
    /// `offset <= pivot < offset + capacity`.
    pub fn render(&mut self) -> (r: (usize, usize))
        requires
            old(self)@.wf(),
        ensures
            final(self)@.entries == old(self)@.entries,
            final(self)@.pivot == old(self)@.pivot,
            final(self)@.capacity == old(self)@.capacity,
            final(self)@.wf(),
            r.0 == final(self)@.offset,
            r.0 <= r.1 <= final(self)@.entries.len(),
            (r.1 as int) == (if r.0 + final(self)@.capacity <= final(self)@.entries.len() {
                r.0 + final(self)@.capacity
            } else {
                final(self)@.entries.len() as int
            }),
            old(self)@.pivot is Some ==> {
                &&& (final(self)@.offset as int) == spec_compute(
                    old(self)@.offset as int,
                    old(self)@.pivot->Some_0 as int,
                    old(self)@.capacity as int,
                    old(self)@.entries.len() as int,
                )
                &&& r.0 <= old(self)@.pivot->Some_0 < r.1
                &&& (old(self)@.pivot->Some_0 as int) < r.0 + final(self)@.capacity
            },
            old(self)@.pivot is None ==> final(self)@.offset == 0 && r == (0usize, 0usize),
    {
        let len = self.components.len();
        match self.ctx.pivot {
            Some(p) => {
                let off = compute(self.ctx.offset, p, self.ctx.max_visible_rows, len);
                self.ctx.offset = off;
                let end = if len - off > self.ctx.max_visible_rows {
                    off + self.ctx.max_visible_rows
                } else {
                    len
                };
                (off, end)
            },
            None => {
                self.ctx.offset = 0;
                (0, 0)
            },
        }
    }
}

} // verus!
