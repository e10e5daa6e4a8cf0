//! Circular selection container: an ordered sequence of items plus one
//! selected position, moved only by `next` and `previous`, both wrapping at
//! the ends. Every list in the interface (the tab row, a tab's media list,
//! an optional subtitle list) is one of these.

use vstd::arithmetic::div_mod::{lemma_mod_self_0, lemma_small_mod};
use vstd::prelude::*;

verus! {

/// Raised when a selection container would be built over no items. An empty
/// list is a configuration error and is rejected at construction, never
/// carried around as a container with no selection.
#[derive(Clone, Copy, PartialEq, Eq, Structural, Debug)]
pub struct EmptySelectionError;

/// An ordered sequence of `T` plus the index of the selected item.
#[derive(Debug)]
pub struct SelectLoop<T> {
    pub items: Vec<T>,
    pub index: usize,
}

/// The position one step forward of `i` in a cycle of length `len`.
pub open spec fn next_index(i: int, len: int) -> int {
    (i + 1) % len
}

/// The position one step backward of `i` in a cycle of length `len`.
pub open spec fn prev_index(i: int, len: int) -> int {
    if i > 0 {
        i - 1
    } else {
        len - 1
    }
}

/// The position `k` forward steps from `i` in a cycle of length `len`.
pub open spec fn iter_next(i: int, len: int, k: nat) -> int
    decreases k,
{
    if k == 0 {
        i
    } else {
        next_index(iter_next(i, len, (k - 1) as nat), len)
    }
}

/// The position `k` backward steps from `i` in a cycle of length `len`.
pub open spec fn iter_prev(i: int, len: int, k: nat) -> int
    decreases k,
{
    if k == 0 {
        i
    } else {
        iter_prev(prev_index(i, len), len, (k - 1) as nat)
    }
}

/// For positions inside the cycle, one forward step lands on the next
/// position, or on 0 from the last one.
pub proof fn lemma_next_index_characterised(i: int, len: int)
    requires
        0 <= i < len,
    ensures
        next_index(i, len) == if i + 1 < len {
            i + 1
        } else {
            0int
        },
        0 <= next_index(i, len) < len,
{
    if i + 1 < len {
        lemma_small_mod((i + 1) as nat, len as nat);
    } else {
        lemma_mod_self_0(len);
    }
}

/// A backward step undoes a forward step.
pub proof fn lemma_prev_of_next(i: int, len: int)
    requires
        0 <= i < len,
    ensures
        prev_index(next_index(i, len), len) == i,
        0 <= prev_index(i, len) < len,
{
    lemma_next_index_characterised(i, len);
}

/// `k` forward steps stay inside the cycle.
pub proof fn lemma_iter_next_in_range(i: int, len: int, k: nat)
    requires
        0 <= i < len,
    ensures
        0 <= iter_next(i, len, k) < len,
    decreases k,
{
    if k > 0 {
        lemma_iter_next_in_range(i, len, (k - 1) as nat);
        lemma_next_index_characterised(iter_next(i, len, (k - 1) as nat), len);
    }
}

/// `k` forward steps followed by `k` backward steps return to the starting
/// position, for every `k`.
pub proof fn lemma_next_prev_cancel(i: int, len: int, k: nat)
    requires
        0 <= i < len,
    ensures
        iter_prev(iter_next(i, len, k), len, k) == i,
    decreases k,
{
    if k > 0 {
        let before = iter_next(i, len, (k - 1) as nat);
        lemma_iter_next_in_range(i, len, (k - 1) as nat);
        lemma_prev_of_next(before, len);
        lemma_next_prev_cancel(i, len, (k - 1) as nat);
    }
}

/// While no more steps than the cycle's length have been taken, the position
/// reached by stepping forward is the starting position plus the step count,
/// wrapped once at the end of the cycle.
pub proof fn lemma_iter_next_offset(i: int, len: int, k: nat)
    requires
        0 <= i < len,
        k <= len,
    ensures
        iter_next(i, len, k) == if i + k < len {
            i + k
        } else {
            i + k - len
        },
    decreases k,
{
    if k > 0 {
        lemma_iter_next_offset(i, len, (k - 1) as nat);
        lemma_iter_next_in_range(i, len, (k - 1) as nat);
        lemma_next_index_characterised(iter_next(i, len, (k - 1) as nat), len);
    }
}

/// Full-cycle law: as many forward steps as the cycle has positions return
/// to the starting position, and likewise backward.
pub proof fn lemma_full_cycle(i: int, len: int)
    requires
        0 <= i < len,
    ensures
        iter_next(i, len, len as nat) == i,
        iter_prev(i, len, len as nat) == i,
{
    lemma_iter_next_offset(i, len, len as nat);
    lemma_next_prev_cancel(i, len, len as nat);
}

impl<T> SelectLoop<T> {
    /// The selection is meaningful: there is at least one item and the index
    /// points at one of them.
    pub open spec fn well_formed(&self) -> bool {
        self.items@.len() > 0 && (self.index as int) < self.items@.len()
    }

    /// Builds a container over `items` with the first item selected, or
    /// rejects an empty `items` outright.
    pub fn new(items: Vec<T>) -> (r: Result<SelectLoop<T>, EmptySelectionError>)
        ensures
            items@.len() > 0 ==> (r matches Ok(s) && s.items@ == items@ && s.index == 0
                && s.well_formed()),
            items@.len() == 0 ==> r matches Err(EmptySelectionError),
    {
        if items.len() == 0 {
            Err(EmptySelectionError)
        } else {
            Ok(SelectLoop { items, index: 0 })
        }
    }

    /// Moves the selection one position forward, wrapping to the first item
    /// after the last.
    pub fn next(&mut self)
        requires
            old(self).well_formed(),
        ensures
            final(self).items@ == old(self).items@,
            final(self).index as int == next_index(
                old(self).index as int,
                old(self).items@.len() as int,
            ),
            final(self).well_formed(),
    {
        let len = self.items.len();
        proof {
            lemma_next_index_characterised(self.index as int, len as int);
        }
        self.index = (self.index + 1) % len;
    }

    /// Moves the selection one position backward, wrapping to the last item
    /// before the first.
    pub fn previous(&mut self)
        requires
            old(self).well_formed(),
        ensures
            final(self).items@ == old(self).items@,
            final(self).index as int == prev_index(
                old(self).index as int,
                old(self).items@.len() as int,
            ),
            final(self).well_formed(),
    {
        self.index = match self.index > 0 {
            true => self.index - 1,
            false => self.items.len() - 1,
        }
    }

    /// The selected item.
    pub fn current(&self) -> (r: &T)
        requires
            self.well_formed(),
        ensures
            *r == self.items@[self.index as int],
    {
        &self.items[self.index]
    }

    /// The selected item, for mutation in place. Only the selected position's
    /// contents can change through the returned reference; the selection
    /// itself and every other item stay as they were.
    pub fn current_mut(&mut self) -> (r: &mut T)
        requires
            old(self).well_formed(),
        ensures
            *r == old(self).items@[old(self).index as int],
            final(self).items@ == old(self).items@.update(old(self).index as int, *final(r)),
            final(self).index == old(self).index,
            final(self).items@.len() == old(self).items@.len(),
    {
        let i = self.index;
        &mut self.items[i]
    }
}

} // verus!
