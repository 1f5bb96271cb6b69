//! A single-assignment, replaceable holder for one registered event handler.
//!
//! The host registers at most one handler per event kind; a later registration
//! replaces the earlier one, and dispatch is a no-op while the slot is empty.
//! The slot stores an opaque handle `H` (the host keeps the real callable); the
//! event router reads the current handle to decide whom to invoke.

use vstd::prelude::*;

verus! {

/// Holds zero or one registered handler handle for one event kind.
pub struct CallbackSlot<H> {
    handler: Option<H>,
}

impl<H> View for CallbackSlot<H> {
    type V = Option<H>;

    closed spec fn view(&self) -> Option<H> {
        self.handler
    }
}

impl<H> CallbackSlot<H> {
    /// A slot with no handler registered.
    pub fn empty() -> (s: Self)
        ensures
            s@ is None,
    {
        CallbackSlot { handler: None }
    }

    /// Registers `h`, replacing whatever handler was registered before.
    pub fn set(&mut self, h: H)
        ensures
            final(self)@ == Some(h),
    {
        self.handler = Some(h);
    }

    /// Drops the registered handler, if any.
    pub fn clear(&mut self)
        ensures
            final(self)@ is None,
    {
        self.handler = None;
    }

    /// Removes and returns the registered handler: the consuming read used for
    /// one-shot result callbacks.
    pub fn take(&mut self) -> (r: Option<H>)
        ensures
            r == old(self)@,
            final(self)@ is None,
    {
        self.handler.take()
    }
}

impl<H: Copy> CallbackSlot<H> {
    /// The handler a dispatch right now would invoke: the latest registered
    /// one, or none while the slot is empty.
    pub fn target(&self) -> (r: Option<H>)
        ensures
            r == self@,
    {
        self.handler
    }
}

} // verus!
