//! A cell for at most one value, with the readiness flag that publishes it.

use vstd::prelude::*;

verus! {

/// Storage for zero or one value of type `T`, with a readiness flag.
///
/// The producer calls [`Slot::write`] and then [`Slot::publish`]; the consumer
/// calls [`Slot::take`], which clears the flag and moves the value out. A value
/// that is still stored when the slot is dropped is dropped with it.
pub struct Slot<T> {
    value: Option<T>,
    ready: bool,
}

impl<T> Slot<T> {
    /// The value stored, if any.
    pub closed spec fn content(&self) -> Option<T> {
        self.value
    }

    /// Whether the readiness flag is set.
    pub closed spec fn published(&self) -> bool {
        self.ready
    }

    /// An empty slot, flag cleared.
    pub fn new() -> (s: Self)
        ensures
            s.content() is None,
            !s.published(),
    {
        Slot { value: None, ready: false }
    }

    /// Stores `v`; the slot must not hold a value yet.
    pub fn write(&mut self, v: T)
        requires
            old(self).content() is None,
        ensures
            final(self).content() == Some(v),
            final(self).published() == old(self).published(),
    {
        self.value = Some(v);
    }

    /// Sets the readiness flag.
    pub fn publish(&mut self)
        ensures
            final(self).published(),
            final(self).content() == old(self).content(),
    {
        self.ready = true;
    }

    /// Reads the readiness flag.
    pub fn is_ready(&self) -> (r: bool)
        ensures
            r == self.published(),
    {
        self.ready
    }

    /// Clears the readiness flag and, if it was set, moves the stored value
    /// out. `None` means the flag was already clear: nothing is handed out and
    /// the content stays.
    pub fn take(&mut self) -> (r: Option<T>)
        ensures
            !final(self).published(),
            r == (if old(self).published() { old(self).content() } else { None }),
            final(self).content() == (if old(self).published() {
                None
            } else {
                old(self).content()
            }),
    {
        if self.ready {
            self.ready = false;
            self.value.take()
        } else {
            None
        }
    }
}

} // verus!
