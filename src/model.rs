//! The state machine shared by every channel tier.

use vstd::prelude::*;

verus! {

/// Where a one-shot channel stands in its life.
pub enum Phase<T> {
    /// Nothing was sent yet.
    Empty,
    /// A value was sent and waits to be received.
    Full(T),
    /// The value was received; the channel is spent.
    Taken,
}

/// Whether a send is allowed in phase `p`: only a channel that never held a
/// value accepts one.
pub open spec fn send_accepted<T>(p: Phase<T>) -> bool {
    p is Empty
}

/// The phase after a send of `msg` in phase `p`; a refused send changes nothing.
pub open spec fn after_send<T>(p: Phase<T>, msg: T) -> Phase<T> {
    match p {
        Phase::Empty => Phase::Full(msg),
        _ => p,
    }
}

/// What a receive in phase `p` hands out, if anything.
pub open spec fn received<T>(p: Phase<T>) -> Option<T> {
    match p {
        Phase::Full(v) => Some(v),
        _ => None,
    }
}

/// The phase after a receive in phase `p`; a receive that finds nothing
/// changes nothing.
pub open spec fn after_receive<T>(p: Phase<T>) -> Phase<T> {
    match p {
        Phase::Full(_) => Phase::Taken,
        _ => p,
    }
}

/// The phase of a channel whose slot holds `content`, whose readiness flag is
/// `ready`, and which has (`used`) or has not accepted a send.
pub open spec fn phase_of<T>(content: Option<T>, ready: bool, used: bool) -> Phase<T> {
    if ready && content is Some {
        Phase::Full(content->Some_0)
    } else if used {
        Phase::Taken
    } else {
        Phase::Empty
    }
}

} // verus!
