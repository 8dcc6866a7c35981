use std::sync::Arc;

use vstd::prelude::*;

verus! {

/// Another pointer to the value of `a`.
#[verifier::external_body]
fn arc_clone<T>(a: &Arc<T>) -> (b: Arc<T>)
    ensures
        *b == **a,
{
    Arc::clone(a)
}

/// A read-copy-update cell: a reader takes a snapshot of the current value, a writer replaces
/// the value; a snapshot keeps the value it was taken of after the cell has moved on.
///
/// Exclusive access of the writers is given by `&mut`.
#[derive(Debug)]
pub struct RcuCell<T> {
    ptr: Arc<T>,
}

impl<T> View for RcuCell<T> {
    type V = T;

    closed spec fn view(&self) -> T {
        *self.ptr
    }
}

impl<T> RcuCell<T> {
    pub fn new(value: T) -> (cell: RcuCell<T>)
        ensures
            cell@ == value,
    {
        RcuCell { ptr: Arc::new(value) }
    }

    /// A snapshot of the current value.
    pub fn load(&self) -> (snapshot: Arc<T>)
        ensures
            *snapshot == self@,
    {
        arc_clone(&self.ptr)
    }

    /// Replaces the value with `value`.
    pub fn store(&mut self, value: T)
        ensures
            final(self)@ == value,
    {
        self.ptr = Arc::new(value);
    }

    /// Replaces the value with what `f` makes of the current one.
    pub fn update<F: FnOnce(&T) -> T>(&mut self, f: F)
        requires
            f.requires((&old(self)@,)),
        ensures
            f.ensures((&old(self)@,), final(self)@),
    {
        let snapshot = self.load();
        let new_val = f(&*snapshot);
        self.store(new_val);
    }
}

} // verus!
