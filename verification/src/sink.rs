//! The sending half of a transport: it puts messages into the channel without
//! waiting, and keeps at most one message aside while the channel is full.

use vstd::prelude::*;

use crate::channel::{
    hands_back, observes, sender_is_closed, try_send_item, Answer, ChannelSender, SendAttempt,
};
use crate::error::{channel_closed_message, InProcessTransportError};

verus! {

/// What a readiness poll of the sink answers.
pub enum SinkPoll {
    /// The poll is settled: the sink can take a message, or it failed.
    Ready(Result<(), InProcessTransportError>),
    /// A message is still waiting for room; ask again later.
    Pending,
}

impl SinkPoll {
    /// The sink is ready for a message.
    pub open spec fn is_ready_ok(self) -> bool {
        self matches SinkPoll::Ready(Ok(_))
    }

    /// The sink failed because the channel is closed.
    pub open spec fn is_ready_closed(self) -> bool {
        self matches SinkPoll::Ready(Err(e)) && e@ == channel_closed_message()
    }

    /// The sink waits for room for the message it holds.
    pub open spec fn is_pending(self) -> bool {
        self is Pending
    }
}

/// The outcome of a send is the closed-channel error.
pub open spec fn is_closed_failure(r: Result<(), InProcessTransportError>) -> bool {
    r matches Err(e) && e@ == channel_closed_message()
}

/// How a poll with no held message settles, given whether the channel is
/// closed: closed channels fail, open ones are ready.
pub open spec fn settles_idle(closed: bool, r: SinkPoll) -> bool {
    if closed {
        r.is_ready_closed()
    } else {
        r.is_ready_ok()
    }
}

/// How a poll that tried to send the held message settles, given what the
/// attempt gave: a sent message leaves nothing held and the sink ready; a full
/// channel hands the message back to be held again and the poll is pending; a
/// closed channel drops the message and fails.
pub open spec fn settles_held<T>(attempt: SendAttempt<T>, held_after: Option<T>, r: SinkPoll) -> bool {
    match attempt {
        SendAttempt::Sent => held_after is None && r.is_ready_ok(),
        SendAttempt::Full(m) => held_after == Some(m) && r.is_pending(),
        SendAttempt::Closed(_) => held_after is None && r.is_ready_closed(),
    }
}

/// How a send settles, given the message held before and what the attempt
/// gave: a sent message changes nothing held and succeeds; a full channel hands
/// the message back to be held in place of whatever was held, and the send
/// succeeds; a closed channel fails and changes nothing held.
pub open spec fn settles_send<T>(
    held_before: Option<T>,
    attempt: SendAttempt<T>,
    held_after: Option<T>,
    r: Result<(), InProcessTransportError>,
) -> bool {
    match attempt {
        SendAttempt::Sent => held_after == held_before && r is Ok,
        SendAttempt::Full(m) => held_after == Some(m) && r is Ok,
        SendAttempt::Closed(_) => held_after == held_before && is_closed_failure(r),
    }
}

/// The messages that a sink has put into the channel or still holds: those
/// the channel accepted, oldest first, then the held one, if any.
pub open spec fn outbox<T>(accepted: Seq<T>, held: Option<T>) -> Seq<T> {
    match held {
        Some(m) => accepted.push(m),
        None => accepted,
    }
}

/// One readiness poll, from the sending end and the held message before to
/// those after, and the answer. With nothing held, tokio is asked whether the
/// channel is closed: open makes the sink ready, closed makes it fail. With a
/// message held, that very message is handed to tokio, and the poll settles as
/// tokio answered: accepted (appended to what the channel accepted, the sink
/// ready), full (only once the channel has accepted its bound; the message
/// still held, the poll pending), or closed (the message dropped, the poll
/// failing). Every answer is recorded on the sending end.
pub open spec fn ready_step<T>(
    tx_before: ChannelSender<T>,
    held_before: Option<T>,
    tx_after: ChannelSender<T>,
    held_after: Option<T>,
    r: SinkPoll,
) -> bool {
    match held_before {
        None => {
            &&& tx_after.accepted() == tx_before.accepted()
            &&& held_after is None
            &&& {
                ||| observes(tx_before, tx_after, Answer::Open) && settles_idle(false, r)
                ||| observes(tx_before, tx_after, Answer::Closed) && settles_idle(true, r)
            }
        },
        Some(m) => {
            ||| {
                &&& observes(tx_before, tx_after, Answer::Accepted)
                &&& tx_after.accepted() == tx_before.accepted().push(m)
                &&& settles_held(SendAttempt::Sent, held_after, r)
            }
            ||| {
                &&& observes(tx_before, tx_after, Answer::Full)
                &&& tx_before.accepted().len() >= tx_before.bound()
                &&& tx_after.accepted() == tx_before.accepted()
                &&& settles_held(SendAttempt::Full(m), held_after, r)
            }
            ||| {
                &&& observes(tx_before, tx_after, Answer::Closed)
                &&& tx_after.accepted() == tx_before.accepted()
                &&& settles_held(SendAttempt::Closed(m), held_after, r)
            }
        },
    }
}

/// One send of `item`, from the sending end and the held message before to
/// those after, and the outcome: `item` is handed to tokio, and the send
/// settles as tokio answered: accepted (appended to what the channel
/// accepted), full (only once the channel has accepted its bound; `item` held),
/// or closed (dropped, with the error). The answer is recorded on the sending
/// end.
pub open spec fn send_step<T>(
    tx_before: ChannelSender<T>,
    held_before: Option<T>,
    item: T,
    tx_after: ChannelSender<T>,
    held_after: Option<T>,
    r: Result<(), InProcessTransportError>,
) -> bool {
    ||| {
        &&& observes(tx_before, tx_after, Answer::Accepted)
        &&& tx_after.accepted() == tx_before.accepted().push(item)
        &&& settles_send(held_before, SendAttempt::Sent, held_after, r)
    }
    ||| {
        &&& observes(tx_before, tx_after, Answer::Full)
        &&& tx_before.accepted().len() >= tx_before.bound()
        &&& tx_after.accepted() == tx_before.accepted()
        &&& settles_send(held_before, SendAttempt::Full(item), held_after, r)
    }
    ||| {
        &&& observes(tx_before, tx_after, Answer::Closed)
        &&& tx_after.accepted() == tx_before.accepted()
        &&& settles_send(held_before, SendAttempt::Closed(item), held_after, r)
    }
}

/// The answer of a poll with no held message, given whether the channel is
/// closed.
pub fn settle_idle(closed: bool) -> (r: SinkPoll)
    ensures
        settles_idle(closed, r),
{
    if closed {
        SinkPoll::Ready(Err(InProcessTransportError::channel_closed()))
    } else {
        SinkPoll::Ready(Ok(()))
    }
}

/// The message held after, and the answer of, a poll that tried to send the
/// held message, given what the attempt gave.
pub fn settle_held<T>(attempt: SendAttempt<T>) -> (res: (Option<T>, SinkPoll))
    ensures
        settles_held(attempt, res.0, res.1),
{
    match attempt {
        SendAttempt::Sent => (None, SinkPoll::Ready(Ok(()))),
        SendAttempt::Full(m) => (Some(m), SinkPoll::Pending),
        SendAttempt::Closed(_) => (None, SinkPoll::Ready(Err(InProcessTransportError::channel_closed()))),
    }
}

/// The message held after, and the outcome of, a send, given the message held
/// before and what the attempt gave.
pub fn settle_send<T>(held: Option<T>, attempt: SendAttempt<T>) -> (res: (
    Option<T>,
    Result<(), InProcessTransportError>,
))
    ensures
        settles_send(held, attempt, res.0, res.1),
{
    match attempt {
        SendAttempt::Sent => (held, Ok(())),
        SendAttempt::Full(m) => (Some(m), Ok(())),
        SendAttempt::Closed(_) => (held, Err(InProcessTransportError::channel_closed())),
    }
}

/// The sink component of the in-process transport.
#[verifier::reject_recursive_types(T)]
pub struct InProcessSink<T> {
    tx: ChannelSender<T>,
    pending: Option<T>,
}

impl<T> InProcessSink<T> {
    /// The sending end of the channel, with its record.
    pub closed spec fn sender(&self) -> ChannelSender<T> {
        self.tx
    }

    /// The message kept aside while the channel was full.
    pub closed spec fn held(&self) -> Option<T> {
        self.pending
    }

    /// A sink on `tx` that holds no message.
    pub(crate) fn new(tx: ChannelSender<T>) -> (sink: Self)
        ensures
            sink.sender() == tx,
            sink.held() is None,
    {
        InProcessSink { tx, pending: None }
    }

    /// Polls for readiness: first tries to send the held message, if there is
    /// one; otherwise reports whether the channel is still open.
    pub fn poll_ready(&mut self) -> (r: SinkPoll)
        ensures
            ready_step(old(self).sender(), old(self).held(), final(self).sender(), final(self).held(), r),
    {
        match self.pending.take() {
            Some(m) => {
                let ghost held = m;
                let attempt = try_send_item(&mut self.tx, m);
                assert(hands_back(attempt, held));
                let (after, r) = settle_held(attempt);
                self.pending = after;
                r
            },
            None => {
                let closed = sender_is_closed(&mut self.tx);
                settle_idle(closed)
            },
        }
    }

    /// Sends `item` without waiting; a full channel hands it back and it is
    /// held until the next readiness poll.
    pub fn start_send(&mut self, item: T) -> (r: Result<(), InProcessTransportError>)
        ensures
            send_step(old(self).sender(), old(self).held(), item, final(self).sender(), final(self).held(), r),
    {
        let held = self.pending.take();
        let ghost sent = item;
        let attempt = try_send_item(&mut self.tx, item);
        assert(hands_back(attempt, sent));
        let (after, r) = settle_send(held, attempt);
        self.pending = after;
        r
    }

    /// Flushing has nothing to do: the channel needs no explicit flush.
    pub fn poll_flush(&self) -> (r: SinkPoll)
        ensures
            r.is_ready_ok(),
    {
        SinkPoll::Ready(Ok(()))
    }

    /// Closing has nothing to do: the sender closes its side when dropped.
    pub fn poll_close(&self) -> (r: SinkPoll)
        ensures
            r.is_ready_ok(),
    {
        SinkPoll::Ready(Ok(()))
    }
}

/// A readiness poll that answers "ready" leaves no message held, and loses
/// none: the held message, if any, is now the last one the channel accepted.
pub proof fn lemma_ready_leaves_nothing_held<T>(
    tx_before: ChannelSender<T>,
    held_before: Option<T>,
    tx_after: ChannelSender<T>,
    held_after: Option<T>,
    r: SinkPoll,
)
    requires
        ready_step(tx_before, held_before, tx_after, held_after, r),
        r.is_ready_ok(),
    ensures
        held_after is None,
        outbox(tx_after.accepted(), held_after) == outbox(tx_before.accepted(), held_before),
{
}

/// A readiness poll answers "pending" only while it holds a message and the
/// channel has accepted at least its bound, and then it still holds that very
/// message and has sent nothing.
pub proof fn lemma_pending_keeps_held_message<T>(
    tx_before: ChannelSender<T>,
    held_before: Option<T>,
    tx_after: ChannelSender<T>,
    held_after: Option<T>,
    r: SinkPoll,
)
    requires
        ready_step(tx_before, held_before, tx_after, held_after, r),
        r.is_pending(),
    ensures
        held_before is Some,
        held_after == held_before,
        tx_after.accepted() == tx_before.accepted(),
        tx_before.accepted().len() >= tx_before.bound(),
{
}

/// The only failure a readiness poll reports is the closed channel; then the
/// channel accepted nothing more, nothing is held, and the sending end has seen
/// its channel closed.
pub proof fn lemma_ready_fails_only_when_closed<T>(
    tx_before: ChannelSender<T>,
    held_before: Option<T>,
    tx_after: ChannelSender<T>,
    held_after: Option<T>,
    e: InProcessTransportError,
)
    requires
        ready_step(tx_before, held_before, tx_after, held_after, SinkPoll::Ready(Err(e))),
    ensures
        e@ == channel_closed_message(),
        held_after is None,
        tx_after.accepted() == tx_before.accepted(),
        tx_after.closed_seen(),
{
}

/// Once a sink has seen its channel closed, every later poll and every later
/// send fails with the closed-channel error, the channel accepts nothing more,
/// and the sink keeps seeing it closed.
pub proof fn lemma_closed_is_final<T>(
    tx_before: ChannelSender<T>,
    held_before: Option<T>,
    tx_polled: ChannelSender<T>,
    held_polled: Option<T>,
    r: SinkPoll,
    item: T,
    tx_sent: ChannelSender<T>,
    held_sent: Option<T>,
    sent: Result<(), InProcessTransportError>,
)
    requires
        tx_before.closed_seen(),
        ready_step(tx_before, held_before, tx_polled, held_polled, r),
        send_step(tx_before, held_before, item, tx_sent, held_sent, sent),
    ensures
        r.is_ready_closed(),
        tx_polled.closed_seen(),
        tx_polled.accepted() == tx_before.accepted(),
        is_closed_failure(sent),
        tx_sent.closed_seen(),
        tx_sent.accepted() == tx_before.accepted(),
{
}

/// A send that fails reports the closed channel and leaves the sink having
/// seen it closed, so that every later call fails too.
pub proof fn lemma_send_failure_is_closed<T>(
    tx_before: ChannelSender<T>,
    held_before: Option<T>,
    item: T,
    tx_after: ChannelSender<T>,
    held_after: Option<T>,
    sent: Result<(), InProcessTransportError>,
)
    requires
        send_step(tx_before, held_before, item, tx_after, held_after, sent),
        sent is Err,
    ensures
        is_closed_failure(sent),
        tx_after.closed_seen(),
        held_after == held_before,
        tx_after.accepted() == tx_before.accepted(),
{
}

/// There is no back-pressure before the channel has accepted its bound: while
/// fewer messages than the bound were accepted, a send never holds its item
/// and a poll never answers "pending".
pub proof fn lemma_no_back_pressure_below_bound<T>(
    tx_before: ChannelSender<T>,
    held_before: Option<T>,
    item: T,
    tx_sent: ChannelSender<T>,
    held_sent: Option<T>,
    sent: Result<(), InProcessTransportError>,
    tx_polled: ChannelSender<T>,
    held_polled: Option<T>,
    r: SinkPoll,
)
    requires
        tx_before.accepted().len() < tx_before.bound(),
        send_step(tx_before, held_before, item, tx_sent, held_sent, sent),
        ready_step(tx_before, held_before, tx_polled, held_polled, r),
    ensures
        sent is Ok ==> tx_sent.accepted() == tx_before.accepted().push(item) && held_sent == held_before,
        !r.is_pending(),
{
}

/// What the channel accepted from a sink only grows, at its end, and its
/// record of answers only grows: a poll or a send never takes back or reorders
/// a message the channel took.
pub proof fn lemma_accepted_only_grows<T>(
    tx_before: ChannelSender<T>,
    held_before: Option<T>,
    tx_ready: ChannelSender<T>,
    held_ready: Option<T>,
    r: SinkPoll,
    item: T,
    tx_after: ChannelSender<T>,
    held_after: Option<T>,
    sent: Result<(), InProcessTransportError>,
)
    requires
        ready_step(tx_before, held_before, tx_ready, held_ready, r),
        send_step(tx_ready, held_ready, item, tx_after, held_after, sent),
    ensures
        tx_before.accepted().is_prefix_of(tx_ready.accepted()),
        tx_ready.accepted().is_prefix_of(tx_after.accepted()),
        tx_after.channel() == tx_before.channel(),
{
    assert(tx_before.accepted() =~= tx_ready.accepted().subrange(0, tx_before.accepted().len() as int));
    assert(tx_ready.accepted() =~= tx_after.accepted().subrange(0, tx_ready.accepted().len() as int));
}

/// A message sent after a poll that answered "ready" is never lost in silence
/// and keeps its place: if the send succeeds, the messages accepted or held are
/// those before, then `item`; if it fails, it fails with the closed-channel
/// error, the channel accepted nothing more and nothing is held.
pub proof fn lemma_send_after_ready_loses_nothing<T>(
    tx_before: ChannelSender<T>,
    held_before: Option<T>,
    tx_ready: ChannelSender<T>,
    held_ready: Option<T>,
    r: SinkPoll,
    item: T,
    tx_after: ChannelSender<T>,
    held_after: Option<T>,
    sent: Result<(), InProcessTransportError>,
)
    requires
        ready_step(tx_before, held_before, tx_ready, held_ready, r),
        r.is_ready_ok(),
        send_step(tx_ready, held_ready, item, tx_after, held_after, sent),
    ensures
        sent is Ok ==> outbox(tx_after.accepted(), held_after) == outbox(tx_before.accepted(), held_before).push(item),
        sent is Err ==> is_closed_failure(sent) && held_after is None && tx_after.accepted()
            == outbox(tx_before.accepted(), held_before),
{
}

} // verus!
