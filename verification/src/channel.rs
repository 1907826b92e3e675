//! The bounded multi-producer channel of tokio, seen through the few calls that
//! the transport makes on it.

use tokio::sync::mpsc::{Receiver, Sender};
use vstd::prelude::*;

verus! {

#[verifier::external_type_specification]
#[verifier::external_body]
#[verifier::reject_recursive_types(T)]
pub struct ExSender<T>(tokio::sync::mpsc::Sender<T>);

#[verifier::external_type_specification]
#[verifier::external_body]
#[verifier::reject_recursive_types(T)]
pub struct ExReceiver<T>(tokio::sync::mpsc::Receiver<T>);

#[verifier::external_type_specification]
#[verifier::external_body]
#[verifier::reject_recursive_types(T)]
pub struct ExSendError<T>(tokio::sync::mpsc::error::SendError<T>);

/// The buffer sizes that a tokio channel accepts: more than zero, and no more
/// than the `usize::MAX >> 3` permits that its semaphore can hold.
pub open spec fn valid_buffer_size(buffer: usize) -> bool {
    0 < buffer && buffer <= usize::MAX / 8
}

/// What came of one attempt to put a message into the channel without waiting.
pub enum SendAttempt<T> {
    /// The message is in the channel.
    Sent,
    /// The channel had no free slot; the message is handed back.
    Full(T),
    /// The receiving side is gone; the message is handed back.
    Closed(T),
}

/// Does `attempt` hand back exactly `item`, if it hands anything back?
pub open spec fn hands_back<T>(attempt: SendAttempt<T>, item: T) -> bool {
    match attempt {
        SendAttempt::Sent => true,
        SendAttempt::Full(m) => m == item,
        SendAttempt::Closed(m) => m == item,
    }
}

/// What tokio answered when the channel was asked something.
pub enum Answer {
    /// `try_send` took the message into the channel.
    Accepted,
    /// `try_send` found no free slot.
    Full,
    /// `try_send` or `is_closed` found the channel closed.
    Closed,
    /// `is_closed` found the channel open.
    Open,
}

/// The answer that a send attempt stands for.
pub open spec fn answer_of<T>(attempt: SendAttempt<T>) -> Answer {
    match attempt {
        SendAttempt::Sent => Answer::Accepted,
        SendAttempt::Full(_) => Answer::Full,
        SendAttempt::Closed(_) => Answer::Closed,
    }
}

/// The sending end of a channel, with the ghost record of the channel it
/// belongs to, the channel's bound, every message that the channel has
/// accepted from this end (oldest first), every answer tokio gave to this end
/// (oldest first), and whether one of those answers found the channel closed.
/// Only the calls of this module, which are where tokio opens the channel and
/// answers for it, set them. The library never clones the tokio sender, so
/// this end is the only one that sends into its channel.
#[verifier::reject_recursive_types(T)]
pub struct ChannelSender<T> {
    tx: Sender<T>,
    channel: Ghost<int>,
    bound: Ghost<nat>,
    accepted: Ghost<Seq<T>>,
    answers: Ghost<Seq<Answer>>,
    closed_seen: Ghost<bool>,
}

/// The receiving end of a channel, with the ghost record of the channel it
/// belongs to and the channel's bound.
#[verifier::reject_recursive_types(T)]
pub struct ChannelReceiver<T> {
    rx: Receiver<T>,
    channel: Ghost<int>,
    bound: Ghost<nat>,
}

impl<T> ChannelSender<T> {
    /// The channel this end sends into.
    pub closed spec fn channel(&self) -> int {
        self.channel@
    }

    /// How many messages the channel buffers.
    pub closed spec fn bound(&self) -> nat {
        self.bound@
    }

    /// The messages the channel has accepted from this end, oldest first.
    pub closed spec fn accepted(&self) -> Seq<T> {
        self.accepted@
    }

    /// The answers tokio has given to this end, oldest first.
    pub closed spec fn answers(&self) -> Seq<Answer> {
        self.answers@
    }

    /// Whether one of those answers found the channel closed.
    pub closed spec fn closed_seen(&self) -> bool {
        self.closed_seen@
    }
}

/// One more answer from tokio on a sending end: it is recorded at the end of
/// the answers, a closed answer is remembered, and an end that has seen its
/// channel closed only ever gets the closed answer again, since a tokio channel
/// never reopens.
pub open spec fn observes<T>(before: ChannelSender<T>, after: ChannelSender<T>, answer: Answer) -> bool {
    &&& after.channel() == before.channel()
    &&& after.bound() == before.bound()
    &&& after.answers() == before.answers().push(answer)
    &&& after.closed_seen() == (before.closed_seen() || answer == Answer::Closed)
    &&& before.closed_seen() ==> answer == Answer::Closed
}

impl<T> ChannelReceiver<T> {
    /// The channel this end receives from.
    pub closed spec fn channel(&self) -> int {
        self.channel@
    }

    /// How many messages the channel buffers.
    pub closed spec fn bound(&self) -> nat {
        self.bound@
    }

    /// The tokio receiver of this end.
    pub closed spec fn receiver(&self) -> Receiver<T> {
        self.rx
    }

    /// The tokio receiver, to be polled for the next message.
    pub fn into_inner(self) -> (rx: Receiver<T>)
        ensures
            rx == self.receiver(),
    {
        self.rx
    }
}

/// Opens a bounded channel with `tokio::sync::mpsc::channel(buffer)`.
///
/// tokio asserts `buffer > 0`, and its semaphore asserts that the buffer is at
/// most `usize::MAX >> 3`; `requires` leaves both panics out. The two ends
/// belong to one new channel, bounded by `buffer` (tokio stores `buffer` as the
/// bound of its semaphore), that has accepted nothing and answered nothing yet.
/// A new channel is not the channel of an end that is still alive, such as
/// `apart_from`.
#[verifier::external_body]
pub(crate) fn open_channel<T, U>(buffer: usize, apart_from: Option<&ChannelReceiver<U>>) -> (ends: (
    ChannelSender<T>,
    ChannelReceiver<T>,
))
    requires
        valid_buffer_size(buffer),
    ensures
        ends.0.channel() == ends.1.channel(),
        ends.0.bound() == buffer,
        ends.1.bound() == buffer,
        ends.0.accepted() == Seq::<T>::empty(),
        ends.0.answers() == Seq::<Answer>::empty(),
        !ends.0.closed_seen(),
        apart_from matches Some(live) ==> ends.0.channel() != live.channel(),
{
    let (tx, rx) = tokio::sync::mpsc::channel(buffer);
    let channel: Ghost<int> = Ghost(vstd::pervasive::arbitrary());
    (
        ChannelSender {
            tx,
            channel,
            bound: Ghost(buffer as nat),
            accepted: Ghost(Seq::empty()),
            answers: Ghost(Seq::empty()),
            closed_seen: Ghost(false),
        },
        ChannelReceiver { rx, channel, bound: Ghost(buffer as nat) },
    )
}

/// Calls `tokio::sync::mpsc::Sender::try_send`.
///
/// tokio takes one permit of the channel's semaphore without waiting. On a
/// closed semaphore it returns `TrySendError::Closed(message)`, and a closed
/// semaphore never reopens; with no permit left it returns
/// `TrySendError::Full(message)`; otherwise the message goes into the channel
/// (`Ok`) and is appended to what the channel accepted from this end. Either
/// error hands back the very message it was given. The semaphore starts with
/// `bound` permits, each accepted message takes one, and only a received
/// message gives one back; as this end is the channel's only sender, the
/// channel is full only once it has accepted at least `bound` messages. Which
/// answer comes depends on the other side of the channel.
#[verifier::external_body]
pub(crate) fn try_send_item<T>(tx: &mut ChannelSender<T>, item: T) -> (attempt: SendAttempt<T>)
    ensures
        hands_back(attempt, item),
        observes(*old(tx), *final(tx), answer_of(attempt)),
        attempt is Sent ==> final(tx).accepted() == old(tx).accepted().push(item),
        !(attempt is Sent) ==> final(tx).accepted() == old(tx).accepted(),
        attempt is Full ==> old(tx).accepted().len() >= old(tx).bound(),
{
    match tx.tx.try_send(item) {
        Ok(()) => SendAttempt::Sent,
        Err(tokio::sync::mpsc::error::TrySendError::Full(m)) => SendAttempt::Full(m),
        Err(tokio::sync::mpsc::error::TrySendError::Closed(m)) => SendAttempt::Closed(m),
    }
}

/// Calls `tokio::sync::mpsc::Sender::is_closed`: whether the receiving side has
/// been dropped or closed. tokio reads the closed flag of the channel's
/// semaphore, the same flag that `try_send` reads, and it is never cleared, so
/// an end that has seen its channel closed sees it closed again. Otherwise the
/// answer depends on the other side.
#[verifier::external_body]
pub(crate) fn sender_is_closed<T>(tx: &mut ChannelSender<T>) -> (closed: bool)
    ensures
        observes(*old(tx), *final(tx), if closed { Answer::Closed } else { Answer::Open }),
        final(tx).accepted() == old(tx).accepted(),
{
    tx.tx.is_closed()
}

/// Formats a `tokio::sync::mpsc::error::SendError` with its `Display` impl,
/// whose tokio impl writes the fixed text "channel closed".
#[verifier::external_body]
pub(crate) fn send_error_text<T>(err: &tokio::sync::mpsc::error::SendError<T>) -> (text: String)
    ensures
        text@ == "channel closed"@,
{
    format!("{}", err)
}

} // verus!
