use vstd::prelude::*;

verus! {

/// A producer of at most one item: the first pull yields the item, if there is one, and
/// every later pull yields nothing.
pub struct Iter<T> {
    value: Option<T>,
}

impl<T> View for Iter<T> {
    type V = Option<T>;

    /// The item that has not been pulled yet, if any.
    closed spec fn view(&self) -> Option<T> {
        self.value
    }
}

impl<T> Iter<T> {
    /// A producer that yields `value`'s item, if it holds one.
    pub(crate) fn new(value: Option<T>) -> (r: Self)
        ensures
            r@ == value,
    {
        Iter { value }
    }

    /// Pulls the next item: the one still held, if any, leaving the producer exhausted.
    pub fn next(&mut self) -> (r: Option<T>)
        ensures
            r == old(self)@,
            final(self)@ is None,
    {
        self.value.take()
    }
}

} // verus!
