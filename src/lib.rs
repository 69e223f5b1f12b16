//! One-shot channels: exactly one value handed from one producer to one
//! consumer, exactly once.
//!
//! Every channel here follows the same life cycle, `Empty -> Full -> Taken`,
//! described by [`model::Phase`] and the transition functions of [`model`].
//! The tiers differ in how misuse is handled:
//! - [`raw::RawChannel`]: misuse is a precondition of the caller;
//! - [`checked::CheckedChannel`]: misuse is reported as an error;
//! - [`Channel`] with its [`Sender`] and [`Receiver`] handles: each operation
//!   consumes its handle, so it can be performed at most once. A handle
//!   carries the identifier of the split that made it, and each operation
//!   takes the channel it acts on.
//!
//! The value is held without interior mutability: a channel shared between
//! threads sits behind whatever exclusive access the caller provides, and the
//! caller parks and wakes the receiving thread around [`Receiver::poll`].

pub mod model;
pub mod slot;
pub mod raw;
pub mod checked;
pub mod laws;
pub mod typestate;

pub use typestate::{Channel, Sender, Receiver, Poll};
