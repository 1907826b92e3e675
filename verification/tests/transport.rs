use rmcp_in_process_transport::channel::SendAttempt;
use rmcp_in_process_transport::sink::{settle_held, settle_idle, settle_send, SinkPoll};
use rmcp_in_process_transport::transport::{
    create_in_process_transport_pair, create_transport_pair, InProcessTransport,
    DEFAULT_BUFFER_SIZE,
};

fn is_ready_ok(r: &SinkPoll) -> bool {
    matches!(r, SinkPoll::Ready(Ok(())))
}

fn is_ready_closed(r: &SinkPoll) -> bool {
    match r {
        SinkPoll::Ready(Err(e)) => e.message() == "Channel closed",
        _ => false,
    }
}

#[test]
fn client_message_reaches_server_and_back() {
    let (client, server) = create_in_process_transport_pair::<u32, String>(4);
    let (mut client_sink, client_stream) = client.split();
    let (mut server_sink, server_stream) = server.split();
    let mut server_rx = server_stream.into_receiver();
    let mut client_rx = client_stream.into_receiver();

    assert!(is_ready_ok(&client_sink.poll_ready()));
    assert!(client_sink.start_send(7).is_ok());
    assert_eq!(server_rx.try_recv().unwrap(), 7);

    assert!(is_ready_ok(&server_sink.poll_ready()));
    assert!(server_sink.start_send("seven".to_string()).is_ok());
    assert_eq!(client_rx.try_recv().unwrap(), "seven");
}

#[test]
fn messages_keep_their_order() {
    let (client, server) = create_transport_pair::<u32, u32>(8);
    let (mut sink, _client_stream) = client.split();
    let (_server_sink, server_stream) = server.split();
    let mut rx = server_stream.into_receiver();
    for i in 0..5u32 {
        assert!(sink.start_send(i).is_ok());
    }
    for i in 0..5u32 {
        assert_eq!(rx.try_recv().unwrap(), i);
    }
    assert!(rx.try_recv().is_err());
}

#[test]
fn full_channel_holds_the_message_until_there_is_room() {
    let (client, server) = InProcessTransport::<u32, u32>::new(1);
    let (mut sink, _client_stream) = client.split();
    let (_server_sink, server_stream) = server.split();
    let mut rx = server_stream.into_receiver();

    assert!(sink.start_send(1).is_ok());
    // the channel is full: the second message is held, and the send succeeds
    assert!(sink.start_send(2).is_ok());
    assert!(matches!(sink.poll_ready(), SinkPoll::Pending));
    assert!(matches!(sink.poll_ready(), SinkPoll::Pending));

    assert_eq!(rx.try_recv().unwrap(), 1);
    assert!(rx.try_recv().is_err());
    // room again: the held message goes out and the sink is ready
    assert!(is_ready_ok(&sink.poll_ready()));
    assert_eq!(rx.try_recv().unwrap(), 2);
    assert!(is_ready_ok(&sink.poll_ready()));
}

#[test]
fn closed_channel_fails_sends_and_polls() {
    let (client, server) = create_in_process_transport_pair::<u32, u32>(2);
    let (mut sink, _client_stream) = client.split();
    drop(server);
    assert!(is_ready_closed(&sink.poll_ready()));
    match sink.start_send(3) {
        Err(e) => assert_eq!(e.message(), "Channel closed"),
        Ok(()) => panic!("a send into a closed channel succeeded"),
    }
}

#[test]
fn held_message_is_dropped_when_the_channel_closes() {
    let (client, server) = create_in_process_transport_pair::<u32, u32>(1);
    let (mut sink, _client_stream) = client.split();
    assert!(sink.start_send(1).is_ok());
    assert!(sink.start_send(2).is_ok());
    drop(server);
    assert!(is_ready_closed(&sink.poll_ready()));
    // nothing is held any more: the next poll only sees the closed channel
    assert!(is_ready_closed(&sink.poll_ready()));
}

#[test]
fn flush_and_close_are_always_ready() {
    let (client, _server) = create_in_process_transport_pair::<u32, u32>(1);
    let (sink, _stream) = client.split();
    assert!(is_ready_ok(&sink.poll_flush()));
    assert!(is_ready_ok(&sink.poll_close()));
}

#[test]
fn default_buffer_size_is_32() {
    assert_eq!(DEFAULT_BUFFER_SIZE, 32);
}

#[test]
fn settle_idle_answers() {
    assert!(is_ready_ok(&settle_idle(false)));
    assert!(is_ready_closed(&settle_idle(true)));
}

#[test]
fn settle_held_answers() {
    let (held, r) = settle_held(SendAttempt::<u32>::Sent);
    assert_eq!(held, None);
    assert!(is_ready_ok(&r));
    let (held, r) = settle_held(SendAttempt::Full(9u32));
    assert_eq!(held, Some(9));
    assert!(matches!(r, SinkPoll::Pending));
    let (held, r) = settle_held(SendAttempt::Closed(9u32));
    assert_eq!(held, None);
    assert!(is_ready_closed(&r));
}

#[test]
fn settle_send_answers() {
    let (held, r) = settle_send(Some(1u32), SendAttempt::Sent);
    assert_eq!(held, Some(1));
    assert!(r.is_ok());
    let (held, r) = settle_send(Some(1u32), SendAttempt::Full(2));
    assert_eq!(held, Some(2));
    assert!(r.is_ok());
    let (held, r) = settle_send(None, SendAttempt::Closed(2u32));
    assert_eq!(held, None);
    assert_eq!(r.unwrap_err().message(), "Channel closed");
}

#[test]
fn two_pairs_share_no_channel() {
    let (c1, s1) = create_in_process_transport_pair::<u32, u32>(2);
    let (c2, s2) = create_in_process_transport_pair::<u32, u32>(2);
    let (mut sink1, _cs1) = c1.split();
    let (_ss1, stream1) = s1.split();
    let (_sink2, _cs2) = c2.split();
    let (_ss2, stream2) = s2.split();
    let mut rx1 = stream1.into_receiver();
    let mut rx2 = stream2.into_receiver();
    assert!(sink1.start_send(5).is_ok());
    assert!(rx2.try_recv().is_err());
    assert_eq!(rx1.try_recv().unwrap(), 5);
}

#[test]
fn back_pressure_starts_after_the_bound() {
    let (client, server) = create_in_process_transport_pair::<u32, u32>(3);
    let (mut sink, _client_stream) = client.split();
    let (_server_sink, _server_stream) = server.split();
    for i in 0..3u32 {
        assert!(is_ready_ok(&sink.poll_ready()));
        assert!(sink.start_send(i).is_ok());
    }
    // three messages fill the channel; the fourth is held and the poll waits
    assert!(is_ready_ok(&sink.poll_ready()));
    assert!(sink.start_send(3).is_ok());
    assert!(matches!(sink.poll_ready(), SinkPoll::Pending));
}

#[test]
fn closed_channel_stays_closed() {
    let (client, server) = create_in_process_transport_pair::<u32, u32>(2);
    let (mut sink, _client_stream) = client.split();
    drop(server);
    assert!(sink.start_send(1).is_err());
    assert!(is_ready_closed(&sink.poll_ready()));
    assert!(sink.start_send(2).is_err());
    assert!(is_ready_closed(&sink.poll_ready()));
}
