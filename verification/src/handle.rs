//! Entries of the handle registry: owners of one persistent reference.
use vstd::prelude::*;

use crate::invoker::CallbackInvoker;

verus! {

/// A call back into managed code that the caller has to perform: turn
/// `persistent` into a transient reference and hand it to the function at
/// `invoker`.
#[derive(Clone, Copy, Debug, PartialEq, Eq, Structural)]
pub struct Invocation {
    /// Address of the invoker function.
    pub invoker: usize,
    /// The persistent reference of the closure to call.
    pub persistent: usize,
}

/// The owner of one persistent reference of the foreign runtime.
///
/// An entry is moved, never copied: whoever holds it is the only one who
/// can release the reference, and releasing consumes the entry.
#[derive(Debug)]
pub struct DartCallback {
    cb: usize,
}

impl View for DartCallback {
    type V = usize;

    /// The persistent reference that the entry owns.
    closed spec fn view(&self) -> usize {
        self.cb
    }
}

impl DartCallback {
    /// Takes ownership of the persistent reference `cb`.
    pub fn new(cb: usize) -> (entry: Self)
        ensures
            entry@ == cb,
    {
        DartCallback { cb }
    }

    /// The persistent reference that the entry owns.
    pub fn persistent(&self) -> (cb: usize)
        ensures
            cb == self@,
    {
        self.cb
    }

    /// The invocation of this entry's closure through `invoker`.
    pub fn call(&self, invoker: &CallbackInvoker) -> (planned: Invocation)
        requires
            invoker.configured(),
        ensures
            planned == (Invocation { invoker: invoker.function(), persistent: self@ }),
    {
        Invocation { invoker: invoker.address(), persistent: self.cb }
    }

    /// Gives the entry up. The result is the reference that the foreign
    /// runtime has to delete, once.
    pub fn release(self) -> (cb: usize)
        ensures
            cb == self@,
    {
        self.cb
    }
}

} // verus!
