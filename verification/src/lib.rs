//! An unbounded multi-producer / multi-consumer channel with cooperative
//! shutdown: producers may block until consumers have drained the queue,
//! and closing the channel turns every later receive into end-of-stream.

pub mod channel;

pub mod events;

pub mod laws;

pub mod state;

pub use channel::same_channel;
pub use channel::unbounded;
pub use channel::DrainRound;
pub use channel::Receiver;
pub use channel::RecvRound;
pub use channel::Sender;
