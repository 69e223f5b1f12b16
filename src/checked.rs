//! The checked tier: misuse is detected at run time and reported as an error.

use vstd::prelude::*;
use crate::model::{Phase, phase_of, send_accepted, after_send, received, after_receive};
use crate::slot::Slot;

verus! {

/// A send found the channel already used.
#[derive(Debug, Clone, Copy, PartialEq, Eq, Structural)]
pub struct DoubleSendError;

/// A receive found no value ready.
#[derive(Debug, Clone, Copy, PartialEq, Eq, Structural)]
pub struct NotReadyError;

/// The result of a checked send in phase `p`.
pub open spec fn send_result<T>(p: Phase<T>) -> Result<(), DoubleSendError> {
    if send_accepted(p) {
        Ok(())
    } else {
        Err(DoubleSendError)
    }
}

/// The result of a checked receive in phase `p`.
pub open spec fn receive_result<T>(p: Phase<T>) -> Result<T, NotReadyError> {
    match received(p) {
        Some(v) => Ok(v),
        None => Err(NotReadyError),
    }
}

/// A one-shot channel with a misuse guard: a second send fails with
/// [`DoubleSendError`], a receive with nothing ready fails with
/// [`NotReadyError`].
pub struct CheckedChannel<T> {
    slot: Slot<T>,
    used: bool,
}

impl<T> CheckedChannel<T> {
    /// The channel's internal consistency: the flag is set exactly when a
    /// value is stored, and only after the guard was taken.
    pub closed spec fn wf(&self) -> bool {
        &&& self.slot.published() == self.slot.content() is Some
        &&& self.slot.published() ==> self.used
    }

    /// Where the channel stands in its life.
    pub closed spec fn phase(&self) -> Phase<T> {
        phase_of(self.slot.content(), self.slot.published(), self.used)
    }

    /// A fresh, empty channel.
    pub fn new() -> (c: Self)
        ensures
            c.wf(),
            c.phase() is Empty,
    {
        CheckedChannel { slot: Slot::new(), used: false }
    }

    /// Sends `msg` if the channel was never used; otherwise fails with
    /// [`DoubleSendError`] and drops `msg`, leaving the channel as it was.
    pub fn send(&mut self, msg: T) -> (r: Result<(), DoubleSendError>)
        requires
            old(self).wf(),
        ensures
            final(self).wf(),
            r == send_result(old(self).phase()),
            final(self).phase() == after_send(old(self).phase(), msg),
    {
        let was_used = self.used;
        self.used = true;
        if was_used {
            return Err(DoubleSendError);
        }
        self.slot.write(msg);
        self.slot.publish();
        Ok(())
    }

    /// Whether a value waits in the channel.
    pub fn is_ready(&self) -> (r: bool)
        requires
            self.wf(),
        ensures
            r == self.phase() is Full,
    {
        self.slot.is_ready()
    }

    /// Hands out the waiting value, or fails with [`NotReadyError`] and leaves
    /// the channel as it was.
    pub fn receive(&mut self) -> (r: Result<T, NotReadyError>)
        requires
            old(self).wf(),
        ensures
            final(self).wf(),
            r == receive_result(old(self).phase()),
            final(self).phase() == after_receive(old(self).phase()),
    {
        match self.slot.take() {
            Some(v) => Ok(v),
            None => Err(NotReadyError),
        }
    }
}

} // verus!
