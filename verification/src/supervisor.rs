//! The one place where the handle of the running program is kept.

use vstd::prelude::*;

verus! {

/// Keeps the handle of the program that runs, if one does. There is room
/// for one handle only, and a handle leaves only by being handed out: to put
/// one in is to get the one before it back, so none is lost unseen.
#[derive(Debug)]
pub struct Supervisor<H> {
    current: Option<H>,
}

impl<H> View for Supervisor<H> {
    type V = Option<H>;

    closed spec fn view(&self) -> Option<H> {
        self.current
    }
}

/// The slot after `handle` was put in, and the handle that was in it.
pub open spec fn after_put<H>(slot: Option<H>, handle: H) -> (Option<H>, Option<H>) {
    (Some(handle), slot)
}

/// The slot after it was emptied, and the handle that was in it.
pub open spec fn after_take<H>(slot: Option<H>) -> (Option<H>, Option<H>) {
    (None, slot)
}

impl<H> Supervisor<H> {
    /// A supervisor that keeps no handle.
    pub fn new() -> (supervisor: Self)
        ensures
            supervisor@ is None,
    {
        Supervisor { current: None }
    }

    /// Whether a handle is kept.
    pub fn is_occupied(&self) -> (occupied: bool)
        ensures
            occupied == self@ is Some,
    {
        self.current.is_some()
    }

    /// Keeps `handle` from now on and hands out the one kept so far, which
    /// the caller has to terminate.
    pub fn put(&mut self, handle: H) -> (previous: Option<H>)
        ensures
            (final(self)@, previous) == after_put(old(self)@, handle),
    {
        let previous = self.current.take();
        self.current = Some(handle);
        previous
    }

    /// Hands out the handle that is kept, for the caller to terminate, and
    /// keeps none from now on.
    pub fn take(&mut self) -> (handle: Option<H>)
        ensures
            (final(self)@, handle) == after_take(old(self)@),
    {
        self.current.take()
    }
}

/// A handle that was put in comes out at the next taking, which leaves
/// nothing behind; to take once more gives nothing and changes nothing.
pub proof fn lemma_take_twice<H>(slot: Option<H>, handle: H)
    ensures
        after_take(after_put(slot, handle).0) == (None::<H>, Some(handle)),
        after_take(after_take(after_put(slot, handle).0).0) == (None::<H>, None::<H>),
{
}

} // verus!
