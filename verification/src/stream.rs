//! The receiving half of a transport.

use tokio::sync::mpsc::Receiver;
use vstd::prelude::*;

use crate::channel::ChannelReceiver;

verus! {

/// The stream component of the in-process transport.
#[verifier::reject_recursive_types(T)]
pub struct InProcessStream<T> {
    rx: ChannelReceiver<T>,
}

impl<T> InProcessStream<T> {
    /// The end this stream receives on.
    pub closed spec fn receiver_end(&self) -> ChannelReceiver<T> {
        self.rx
    }

    /// A stream on `rx`.
    pub(crate) fn new(rx: ChannelReceiver<T>) -> (stream: Self)
        ensures
            stream.receiver_end() == rx,
    {
        InProcessStream { rx }
    }

    /// The receiving end, to be polled for the next message.
    pub fn into_receiver(self) -> (rx: Receiver<T>)
        ensures
            rx == self.receiver_end().receiver(),
    {
        self.rx.into_inner()
    }
}

} // verus!
