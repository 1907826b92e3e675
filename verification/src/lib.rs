//! An in-process transport: a pair of bounded channels that connects a client
//! and a server living in the same process, with a sink that keeps at most one
//! message aside while the channel is full.

pub mod channel;
pub mod error;
pub mod sink;
pub mod stream;
pub mod transport;
