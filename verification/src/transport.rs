//! A transport: the sending end of one channel and the receiving end of
//! another, made in pairs so that each side receives what the other sends.

use vstd::prelude::*;

use crate::channel::{open_channel, valid_buffer_size, Answer, ChannelReceiver, ChannelSender};
use crate::sink::InProcessSink;
use crate::stream::InProcessStream;

verus! {

/// The buffer size that a transport pair gets when none is given.
pub const DEFAULT_BUFFER_SIZE: usize = 32;

/// Marks the way an in-process transport is turned into a running transport.
pub struct TransportAdapterInProcess;

/// A unified transport that can be used for both client and server sides of
/// in-process communication: it sends `Out` messages and receives `In` ones.
#[verifier::reject_recursive_types(Out)]
#[verifier::reject_recursive_types(In)]
pub struct InProcessTransport<Out, In> {
    tx: ChannelSender<Out>,
    rx: ChannelReceiver<In>,
}

/// Two transports wired to each other: the first sends into the channel that
/// the second receives from, the second into the one the first receives from,
/// these are two different channels, each bounded by `buffer_size`, and
/// neither sending end has had a message accepted or an answer from tokio yet.
pub open spec fn cross_wired<A, B>(
    first: InProcessTransport<A, B>,
    second: InProcessTransport<B, A>,
    buffer_size: usize,
) -> bool {
    &&& first.sender().channel() == second.receiver().channel()
    &&& second.sender().channel() == first.receiver().channel()
    &&& first.sender().channel() != first.receiver().channel()
    &&& fresh_sender(first.sender(), buffer_size)
    &&& fresh_sender(second.sender(), buffer_size)
    &&& first.receiver().bound() == buffer_size
    &&& second.receiver().bound() == buffer_size
}

/// A sending end of a channel bounded by `buffer_size` that has had nothing
/// accepted and no answer from tokio.
pub open spec fn fresh_sender<T>(tx: ChannelSender<T>, buffer_size: usize) -> bool {
    &&& tx.bound() == buffer_size
    &&& tx.accepted() == Seq::<T>::empty()
    &&& tx.answers() == Seq::<Answer>::empty()
    &&& !tx.closed_seen()
}

impl<Out, In> InProcessTransport<Out, In> {
    /// The end this transport sends on, with its record.
    pub closed spec fn sender(&self) -> ChannelSender<Out> {
        self.tx
    }

    /// The end this transport receives on.
    pub closed spec fn receiver(&self) -> ChannelReceiver<In> {
        self.rx
    }

    /// Splits the transport into its sink and stream components: the sink
    /// keeps the sending end, with its record, and starts with no message
    /// held; the stream keeps the receiving end.
    pub fn split(self) -> (parts: (InProcessSink<Out>, InProcessStream<In>))
        ensures
            parts.0.sender() == self.sender(),
            parts.0.held() is None,
            parts.1.receiver_end() == self.receiver(),
    {
        let sink = InProcessSink::new(self.tx);
        let stream = InProcessStream::new(self.rx);
        (sink, stream)
    }

    /// Creates a new transport pair with the given buffer size.
    pub fn new(buffer_size: usize) -> (pair: (InProcessTransport<Out, In>, InProcessTransport<In, Out>))
        requires
            valid_buffer_size(buffer_size),
        ensures
            cross_wired(pair.0, pair.1, buffer_size),
    {
        create_in_process_transport_pair(buffer_size)
    }
}

/// Creates a pair of transports for a client and a server running in the same
/// process: what the first sends the second receives, and the other way round.
/// `buffer_size` is how many messages each direction buffers before
/// back-pressure is applied.
pub fn create_in_process_transport_pair<Client, Server>(buffer_size: usize) -> (pair: (
    InProcessTransport<Client, Server>,
    InProcessTransport<Server, Client>,
))
    requires
        valid_buffer_size(buffer_size),
    ensures
        cross_wired(pair.0, pair.1, buffer_size),
{
    // Client to server channel (client sends, server receives)
    let (client_tx, server_rx) = open_channel::<Client, Client>(buffer_size, None);
    // Server to client channel (server sends, client receives)
    let (server_tx, client_rx) = open_channel::<Server, Client>(buffer_size, Some(&server_rx));
    let client_transport = InProcessTransport { tx: client_tx, rx: client_rx };
    let server_transport = InProcessTransport { tx: server_tx, rx: server_rx };
    (client_transport, server_transport)
}

/// Creates a new in-process transport pair with matching client and server
/// sides.
pub fn create_transport_pair<Client, Server>(buffer_size: usize) -> (pair: (
    InProcessTransport<Client, Server>,
    InProcessTransport<Server, Client>,
))
    requires
        valid_buffer_size(buffer_size),
    ensures
        cross_wired(pair.0, pair.1, buffer_size),
{
    create_in_process_transport_pair(buffer_size)
}

} // verus!
