//! A forward-only cursor over a finite sequence of elements.

use vstd::prelude::*;

verus! {

/// A stateful handle over an ordered sequence of elements, consumed one at a
/// time, front to back. Its view is the sequence of elements not yet consumed.
pub struct Cursor<T> {
    items: Vec<T>,
}

impl<T> View for Cursor<T> {
    type V = Seq<T>;

    closed spec fn view(&self) -> Seq<T> {
        self.items@
    }
}

impl<T> Cursor<T> {
    /// A cursor positioned before the first element of `items`.
    pub fn new(items: Vec<T>) -> (c: Cursor<T>)
        ensures
            c@ == items@,
    {
        Cursor { items }
    }

    /// How many elements are still to be consumed.
    pub fn remaining(&self) -> (n: usize)
        ensures
            n == self@.len(),
    {
        self.items.len()
    }

    /// Consumes and returns the front element, or returns `None` on an
    /// exhausted cursor, which it leaves unchanged.
    pub fn next(&mut self) -> (r: Option<T>)
        ensures
            old(self)@.len() == 0 ==> r is None && final(self)@ == old(self)@,
            old(self)@.len() > 0 ==> r == Some(old(self)@[0]) && final(self)@ == old(self)@.skip(1),
    {
        if self.items.len() == 0 {
            None
        } else {
            let x = self.items.remove(0);
            proof {
                assert(self.items@ =~= old(self)@.skip(1));
            }
            Some(x)
        }
    }
}

} // verus!
