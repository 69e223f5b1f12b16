//! The raw tier: no run-time misuse detection; single use is the caller's
//! obligation, stated as preconditions.

use vstd::prelude::*;
use crate::model::{Phase, phase_of, after_send, received, after_receive};
use crate::slot::Slot;

verus! {

/// A one-shot channel without a misuse guard. [`RawChannel::send`] may be
/// called only on an empty channel and [`RawChannel::receive`] only on a full
/// one.
pub struct RawChannel<T> {
    slot: Slot<T>,
    sent: Ghost<bool>,
}

impl<T> RawChannel<T> {
    /// The channel's internal consistency: the flag is set exactly when a
    /// value is stored, and only after a send.
    pub closed spec fn wf(&self) -> bool {
        &&& self.slot.published() == self.slot.content() is Some
        &&& self.slot.published() ==> self.sent@
    }

    /// Where the channel stands in its life.
    pub closed spec fn phase(&self) -> Phase<T> {
        phase_of(self.slot.content(), self.slot.published(), self.sent@)
    }

    /// A fresh, empty channel.
    pub fn new() -> (c: Self)
        ensures
            c.wf(),
            c.phase() is Empty,
    {
        RawChannel { slot: Slot::new(), sent: Ghost(false) }
    }

    /// Writes `msg` and publishes it.
    pub fn send(&mut self, msg: T)
        requires
            old(self).wf(),
            old(self).phase() is Empty,
        ensures
            final(self).wf(),
            final(self).phase() == after_send(old(self).phase(), msg),
            final(self).phase() == Phase::Full(msg),
    {
        self.sent = Ghost(true);
        self.slot.write(msg);
        self.slot.publish();
    }

    /// Whether a value waits in the channel.
    pub fn is_ready(&self) -> (r: bool)
        requires
            self.wf(),
        ensures
            r == self.phase() is Full,
    {
        self.slot.is_ready()
    }

    /// Moves the waiting value out.
    pub fn receive(&mut self) -> (r: T)
        requires
            old(self).wf(),
            old(self).phase() is Full,
        ensures
            final(self).wf(),
            received(old(self).phase()) == Some(r),
            final(self).phase() == after_receive(old(self).phase()),
            final(self).phase() is Taken,
    {
        let v = self.slot.take();
        v.unwrap()
    }
}

} // verus!
