//! The pending slot: a one-element lookahead buffer.
//!
//! The decoder uses it to guarantee that a commit (`Decided`) is observed
//! strictly before the provisional event (`Tentative`) that the same key
//! press causes.  The slot never holds more than one event; enqueuing
//! into an occupied slot would be a logic bug, so it is excluded by
//! precondition rather than silently overwriting.

use vstd::prelude::*;

verus! {

/// A one-element FIFO.  Its view is its content.
#[derive(Debug)]
pub struct Pending<EVENT> {
    event: Option<EVENT>,
}

impl<EVENT> View for Pending<EVENT> {
    type V = Option<EVENT>;

    closed spec fn view(&self) -> Option<EVENT> {
        self.event
    }
}

impl<EVENT> Pending<EVENT> {
    pub fn new() -> (r: Self)
        ensures
            r@ is None,
    {
        Self { event: None }
    }

    /// Stores an event into the slot, which must be free: the decoder
    /// never enqueues while an event is still waiting to be delivered.
    pub fn enqueue(&mut self, event: EVENT)
        requires
            old(self)@ is None,
        ensures
            final(self)@ == Some(event),
    {
        self.event = Some(event);
    }

    /// Empties the slot, handing back whatever it held.
    pub fn dequeue(&mut self) -> (r: Option<EVENT>)
        ensures
            r == old(self)@,
            final(self)@ is None,
    {
        self.event.take()
    }
}

impl<EVENT> Default for Pending<EVENT> {
    fn default() -> (r: Self)
        ensures
            r@ is None,
    {
        Self::new()
    }
}

} // verus!
