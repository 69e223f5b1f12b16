//! Properties of the channel life cycle that hold for every tier, stated over
//! the transition functions that the tiers' contracts use.

use vstd::prelude::*;
use crate::model::{Phase, send_accepted, after_send, received, after_receive};
use crate::checked::{DoubleSendError, NotReadyError, send_result, receive_result};

verus! {

/// A value sent into a fresh channel is exactly the value received, and the
/// receive spends the channel.
pub proof fn round_trip<T>(msg: T)
    ensures
        send_accepted(Phase::<T>::Empty),
        received(after_send(Phase::<T>::Empty, msg)) == Some(msg),
        receive_result(after_send(Phase::<T>::Empty, msg)) == Ok::<T, NotReadyError>(msg),
        after_receive(after_send(Phase::<T>::Empty, msg)) is Taken,
{
}

/// A receive before any send, or after a successful receive, hands out
/// nothing; the checked tier reports it as [`NotReadyError`].
pub proof fn receive_without_value_fails<T>(p: Phase<T>)
    ensures
        received(Phase::<T>::Empty) is None,
        receive_result(Phase::<T>::Empty) == Err::<T, NotReadyError>(NotReadyError),
        p is Full ==> received(after_receive(p)) is None,
        p is Full ==> receive_result(after_receive(p)) == Err::<T, NotReadyError>(
            NotReadyError,
        ),
{
}

/// Of two sends into a fresh channel, whichever comes first succeeds and the
/// other fails with [`DoubleSendError`]; the value stored is the winner's. In
/// any phase, two sends never both succeed.
pub proof fn exactly_one_send_wins<T>(p: Phase<T>, a: T, b: T)
    ensures
        !(send_result(p) is Ok && send_result(after_send(p, a)) is Ok),
        p is Empty ==> send_result(p) is Ok,
        p is Empty ==> send_result(after_send(p, a)) == Err::<(), DoubleSendError>(
            DoubleSendError,
        ),
        p is Empty ==> after_send(after_send(p, a), b) == Phase::Full(a),
{
}

/// A receive attempt that finds nothing leaves the channel unchanged, so a
/// receiver that starts waiting before the send, and tries any number of
/// times, still gets exactly the value sent.
pub proof fn waiting_receiver_gets_value<T>(p: Phase<T>, msg: T)
    ensures
        received(p) is None ==> after_receive(p) == p,
        received(after_send(after_receive(Phase::<T>::Empty), msg)) == Some(msg),
{
}

/// Sends and receives only move a channel forward: none brings a used channel
/// back to [`Phase::Empty`] (only a re-split does), and a spent channel stays
/// spent.
pub proof fn life_cycle_moves_forward<T>(p: Phase<T>, msg: T)
    ensures
        !(p is Empty) ==> !(after_send(p, msg) is Empty),
        !(p is Empty) ==> !(after_receive(p) is Empty),
        p is Taken ==> after_send(p, msg) is Taken && after_receive(p) is Taken,
{
}

} // verus!
