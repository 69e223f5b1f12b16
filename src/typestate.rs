//! The typestate tier: a channel split into one sending and one receiving
//! handle, each consumed by its operation.

use vstd::prelude::*;
use crate::model::{Phase, phase_of, after_send, received, after_receive};
use crate::slot::Slot;

verus! {

/// The identifier that the split after one with identifier `g` gives out.
pub open spec fn next_generation(g: u64) -> u64 {
    if g == u64::MAX {
        0
    } else {
        (g + 1) as u64
    }
}

/// A one-shot channel, split into a [`Sender`] and a [`Receiver`].
///
/// Each split resets the channel to [`Phase::Empty`] and gives the pair a new
/// identifier, so that handles of an earlier split no longer match it.
pub struct Channel<T> {
    slot: Slot<T>,
    generation: u64,
    sent: Ghost<bool>,
}

/// The right to send one value into the channel it was split from.
pub struct Sender {
    id: u64,
}

/// The right to receive one value from the channel it was split from.
pub struct Receiver {
    id: u64,
}

/// The outcome of one receive attempt that must not fail.
pub enum Poll<T> {
    /// The value was there and is handed out.
    Ready(T),
    /// Nothing yet: the receiving handle comes back for a later attempt.
    Pending(Receiver),
}

impl<T> Channel<T> {
    /// The channel's internal consistency: the flag is set exactly when a
    /// value is stored, and only after a send.
    pub closed spec fn wf(&self) -> bool {
        &&& self.slot.published() == self.slot.content() is Some
        &&& self.slot.published() ==> self.sent@
    }

    /// Where the channel stands in its life.
    pub closed spec fn phase(&self) -> Phase<T> {
        phase_of(self.slot.content(), self.slot.published(), self.sent@)
    }

    /// The identifier of the latest split.
    pub closed spec fn generation(&self) -> u64 {
        self.generation
    }

    /// A fresh, empty channel.
    pub fn new() -> (c: Self)
        ensures
            c.wf(),
            c.phase() is Empty,
            c.generation() == 0,
    {
        Channel { slot: Slot::new(), generation: 0, sent: Ghost(false) }
    }

    /// Resets the channel to empty, dropping any value left in it, and hands
    /// out the one sender and the one receiver of the new identifier.
    pub fn split(&mut self) -> (r: (Sender, Receiver))
        ensures
            final(self).wf(),
            final(self).phase() is Empty,
            final(self).generation() == next_generation(old(self).generation()),
            r.0.id() == final(self).generation(),
            r.1.id() == final(self).generation(),
    {
        let g: u64 = if self.generation == u64::MAX {
            0
        } else {
            self.generation + 1
        };
        self.slot = Slot::new();
        self.generation = g;
        self.sent = Ghost(false);
        (Sender { id: g }, Receiver { id: g })
    }
}

impl Sender {
    /// The identifier of the split that made this handle.
    pub closed spec fn id(&self) -> u64 {
        self.id
    }

    /// Whether this handle came from the latest split of `ch`.
    pub fn belongs_to<T>(&self, ch: &Channel<T>) -> (r: bool)
        ensures
            r == (self.id() == ch.generation()),
    {
        self.id == ch.generation
    }

    /// Writes `msg` into the channel and publishes it, using up the handle.
    pub fn send<T>(self, ch: &mut Channel<T>, msg: T)
        requires
            old(ch).wf(),
            old(ch).phase() is Empty,
            self.id() == old(ch).generation(),
        ensures
            final(ch).wf(),
            final(ch).phase() == after_send(old(ch).phase(), msg),
            final(ch).phase() == Phase::Full(msg),
            final(ch).generation() == old(ch).generation(),
    {
        ch.sent = Ghost(true);
        ch.slot.write(msg);
        ch.slot.publish();
    }
}

impl Receiver {
    /// The identifier of the split that made this handle.
    pub closed spec fn id(&self) -> u64 {
        self.id
    }

    /// Whether this handle came from the latest split of `ch`.
    pub fn belongs_to<T>(&self, ch: &Channel<T>) -> (r: bool)
        ensures
            r == (self.id() == ch.generation()),
    {
        self.id == ch.generation
    }

    /// Whether a value waits in `ch`.
    pub fn is_ready<T>(&self, ch: &Channel<T>) -> (r: bool)
        requires
            ch.wf(),
        ensures
            r == ch.phase() is Full,
    {
        ch.slot.is_ready()
    }

    /// Moves the waiting value out of `ch`, using up the handle.
    pub fn recv<T>(self, ch: &mut Channel<T>) -> (r: T)
        requires
            old(ch).wf(),
            old(ch).phase() is Full,
            self.id() == old(ch).generation(),
        ensures
            final(ch).wf(),
            received(old(ch).phase()) == Some(r),
            final(ch).phase() == after_receive(old(ch).phase()),
            final(ch).phase() is Taken,
            final(ch).generation() == old(ch).generation(),
    {
        let v = ch.slot.take();
        v.unwrap()
    }

    /// One receive attempt: hands out the value if it is there, or gives the
    /// handle back and leaves the channel unchanged if it is not.
    pub fn poll<T>(self, ch: &mut Channel<T>) -> (r: Poll<T>)
        requires
            old(ch).wf(),
            self.id() == old(ch).generation(),
        ensures
            final(ch).wf(),
            final(ch).phase() == after_receive(old(ch).phase()),
            final(ch).generation() == old(ch).generation(),
            match r {
                Poll::Ready(v) => received(old(ch).phase()) == Some(v),
                Poll::Pending(h) => received(old(ch).phase()) is None && h.id() == self.id(),
            },
    {
        if ch.slot.is_ready() {
            Poll::Ready(self.recv(ch))
        } else {
            Poll::Pending(self)
        }
    }
}

} // verus!
