use std::cell::Cell;
use std::rc::Rc;

use oneshot_channel::checked::{CheckedChannel, DoubleSendError, NotReadyError};
use oneshot_channel::raw::RawChannel;
use oneshot_channel::slot::Slot;
use oneshot_channel::{Channel, Poll};

/// Counts how many times values of it were dropped.
struct DropCounted {
    drops: Rc<Cell<u32>>,
}

impl Drop for DropCounted {
    fn drop(&mut self) {
        self.drops.set(self.drops.get() + 1);
    }
}

fn counted(drops: &Rc<Cell<u32>>) -> DropCounted {
    DropCounted { drops: Rc::clone(drops) }
}

#[test]
fn it_works() {
    let mut channel = Channel::new();
    let (sender, receiver) = channel.split();
    sender.send(&mut channel, "hello rustacean!");
    assert_eq!(receiver.recv(&mut channel), "hello rustacean!");
}

#[test]
fn string_round_trip_through_split_handles() {
    for _ in 0..300 {
        let mut channel: Channel<String> = Channel::new();
        let (sender, receiver) = channel.split();
        assert!(!receiver.is_ready(&channel));
        sender.send(&mut channel, String::from("hello"));
        assert!(receiver.is_ready(&channel));
        assert_eq!(receiver.recv(&mut channel), "hello");
    }
}

#[test]
fn round_trip_keeps_large_value_intact() {
    let payload: Vec<u64> = (0..10_000).collect();
    let mut channel = Channel::new();
    let (sender, receiver) = channel.split();
    sender.send(&mut channel, payload.clone());
    assert_eq!(receiver.recv(&mut channel), payload);
}

#[test]
fn poll_before_send_is_pending_then_ready() {
    let mut channel = Channel::new();
    let (sender, receiver) = channel.split();
    let mut receiver = receiver;
    for _ in 0..3 {
        receiver = match receiver.poll(&mut channel) {
            Poll::Pending(r) => r,
            Poll::Ready(_) => panic!("nothing was sent yet"),
        };
    }
    sender.send(&mut channel, 42u32);
    match receiver.poll(&mut channel) {
        Poll::Ready(v) => assert_eq!(v, 42),
        Poll::Pending(_) => panic!("the value was sent"),
    }
}

#[test]
fn split_again_gives_new_handles() {
    let mut channel: Channel<u8> = Channel::new();
    let (old_sender, old_receiver) = channel.split();
    assert!(old_sender.belongs_to(&channel));
    assert!(old_receiver.belongs_to(&channel));
    let (sender, receiver) = channel.split();
    assert!(!old_sender.belongs_to(&channel));
    assert!(!old_receiver.belongs_to(&channel));
    assert!(sender.belongs_to(&channel));
    sender.send(&mut channel, 3);
    assert_eq!(receiver.recv(&mut channel), 3);
}

#[test]
fn split_drops_value_left_unread() {
    let drops = Rc::new(Cell::new(0));
    let mut channel = Channel::new();
    let (sender, _receiver) = channel.split();
    sender.send(&mut channel, counted(&drops));
    assert_eq!(drops.get(), 0);
    let (_sender, receiver) = channel.split();
    assert_eq!(drops.get(), 1);
    assert!(!receiver.is_ready(&channel));
}

#[test]
fn dropping_channel_drops_unread_value_once() {
    let drops = Rc::new(Cell::new(0));
    {
        let mut channel = Channel::new();
        let (sender, _receiver) = channel.split();
        sender.send(&mut channel, counted(&drops));
        assert_eq!(drops.get(), 0);
    }
    assert_eq!(drops.get(), 1);
}

#[test]
fn received_value_is_not_dropped_by_channel() {
    let drops = Rc::new(Cell::new(0));
    let mut channel = Channel::new();
    let (sender, receiver) = channel.split();
    sender.send(&mut channel, counted(&drops));
    let value = receiver.recv(&mut channel);
    drop(channel);
    assert_eq!(drops.get(), 0);
    drop(value);
    assert_eq!(drops.get(), 1);
}

#[test]
fn empty_channel_drops_nothing() {
    let drops = Rc::new(Cell::new(0));
    let channel: Channel<DropCounted> = Channel::new();
    drop(channel);
    let checked: CheckedChannel<DropCounted> = CheckedChannel::new();
    drop(checked);
    assert_eq!(drops.get(), 0);
}

#[test]
fn checked_round_trip() {
    let mut channel = CheckedChannel::new();
    assert!(!channel.is_ready());
    assert_eq!(channel.send(String::from("hello")), Ok(()));
    assert!(channel.is_ready());
    assert_eq!(channel.receive(), Ok(String::from("hello")));
    assert!(!channel.is_ready());
}

#[test]
fn checked_receive_before_send_is_not_ready() {
    let mut channel: CheckedChannel<u32> = CheckedChannel::new();
    assert_eq!(channel.receive(), Err(NotReadyError));
    assert_eq!(channel.send(5), Ok(()));
    assert_eq!(channel.receive(), Ok(5));
}

#[test]
fn checked_receive_twice_is_not_ready() {
    let mut channel = CheckedChannel::new();
    assert_eq!(channel.send(5u32), Ok(()));
    assert_eq!(channel.receive(), Ok(5));
    assert_eq!(channel.receive(), Err(NotReadyError));
}

#[test]
fn checked_second_send_fails_and_keeps_first_value() {
    let mut channel = CheckedChannel::new();
    assert_eq!(channel.send(1u32), Ok(()));
    assert_eq!(channel.send(2u32), Err(DoubleSendError));
    assert_eq!(channel.receive(), Ok(1));
}

#[test]
fn checked_send_after_receive_fails() {
    let mut channel = CheckedChannel::new();
    assert_eq!(channel.send(1u32), Ok(()));
    assert_eq!(channel.receive(), Ok(1));
    assert_eq!(channel.send(2u32), Err(DoubleSendError));
    assert_eq!(channel.receive(), Err(NotReadyError));
}

#[test]
fn checked_rejected_value_is_dropped() {
    let drops = Rc::new(Cell::new(0));
    let mut channel = CheckedChannel::new();
    assert!(channel.send(counted(&drops)).is_ok());
    assert!(channel.send(counted(&drops)).is_err());
    assert_eq!(drops.get(), 1);
    drop(channel);
    assert_eq!(drops.get(), 2);
}

#[test]
fn raw_round_trip() {
    let mut channel = RawChannel::new();
    assert!(!channel.is_ready());
    channel.send(vec![1u8, 2, 3]);
    assert!(channel.is_ready());
    assert_eq!(channel.receive(), vec![1, 2, 3]);
    assert!(!channel.is_ready());
}

#[test]
fn raw_drops_unread_value() {
    let drops = Rc::new(Cell::new(0));
    {
        let mut channel = RawChannel::new();
        channel.send(counted(&drops));
    }
    assert_eq!(drops.get(), 1);
}

#[test]
fn slot_take_needs_publish() {
    let mut slot = Slot::new();
    assert!(!slot.is_ready());
    assert_eq!(slot.take(), None);
    slot.write(9u8);
    assert!(!slot.is_ready());
    assert_eq!(slot.take(), None);
    slot.publish();
    assert!(slot.is_ready());
    assert_eq!(slot.take(), Some(9));
    assert!(!slot.is_ready());
    assert_eq!(slot.take(), None);
}
