use multicast_tester::broadcaster::{BroadcastAction, BroadcastEvent, BroadcasterSession};
use multicast_tester::endpoint::{group_endpoint, multicast_group, protocol_endpoint, Endpoint, Ipv4Address};
use multicast_tester::error::Error;
use multicast_tester::probe::{probe_at, ProbeKind};
use multicast_tester::receiver::{ReceiveAction, ReceiveEvent, ReceiverSession};

const BROADCASTER: Ipv4Address = Ipv4Address(192, 168, 1, 10);
const RECEIVER: Ipv4Address = Ipv4Address(192, 168, 1, 20);

#[test]
fn endpoints() {
    assert_eq!(multicast_group(), Ipv4Address(239, 0, 0, 3));
    assert_eq!(group_endpoint(), Endpoint { ip: Ipv4Address(239, 0, 0, 3), port: 14000 });
    assert_eq!(protocol_endpoint(BROADCASTER), Endpoint { ip: BROADCASTER, port: 14000 });
}

#[test]
fn broadcaster_sends_exactly_ten_then_joins_and_reports() {
    let mut s = BroadcasterSession::new(BROADCASTER);
    let local = Endpoint { ip: BROADCASTER, port: 14000 };
    assert_eq!(s.action(), BroadcastAction::BindCollector(local));
    assert_eq!(s.step(BroadcastEvent::Completed), BroadcastAction::BindAnnouncer(local));
    let mut action = s.step(BroadcastEvent::Completed);
    let mut sent = Vec::new();
    while let BroadcastAction::SendProbe(p, to) = action {
        assert_eq!(to, group_endpoint());
        sent.push(p);
        action = s.step(BroadcastEvent::Completed);
    }
    assert_eq!(sent.len(), 10);
    assert_eq!(s.sent(), 10);
    for (i, p) in sent.iter().enumerate() {
        assert_eq!(*p, probe_at(i));
    }
    assert_eq!(sent[9].kind, ProbeKind::TerminalMarker);
    assert_eq!(action, BroadcastAction::JoinCollector);
    assert_eq!(s.step(BroadcastEvent::Completed), BroadcastAction::JoinCollector);
    assert_eq!(s.step(BroadcastEvent::CollectorJoined(Ok(()))), BroadcastAction::Report);
    assert_eq!(s.step(BroadcastEvent::Completed), BroadcastAction::Finish(Ok(())));
    assert_eq!(s.step(BroadcastEvent::Failed), BroadcastAction::Finish(Ok(())));
}

#[test]
fn broadcaster_bind_in_use_aborts_before_sending() {
    let mut s = BroadcasterSession::new(BROADCASTER);
    assert_eq!(s.step(BroadcastEvent::Failed), BroadcastAction::Finish(Err(Error::SocketBind)));
    assert_eq!(s.sent(), 0);

    let mut s = BroadcasterSession::new(BROADCASTER);
    s.step(BroadcastEvent::Completed);
    assert_eq!(s.step(BroadcastEvent::Failed), BroadcastAction::Finish(Err(Error::SocketBind)));
    assert_eq!(s.sent(), 0);
}

#[test]
fn broadcaster_send_failure_aborts_batch() {
    let mut s = BroadcasterSession::new(BROADCASTER);
    s.step(BroadcastEvent::Completed);
    s.step(BroadcastEvent::Completed);
    for _ in 0..4 {
        s.step(BroadcastEvent::Completed);
    }
    assert_eq!(s.action(), BroadcastAction::SendProbe(probe_at(4), group_endpoint()));
    assert_eq!(s.step(BroadcastEvent::Failed), BroadcastAction::Finish(Err(Error::SendData)));
    assert_eq!(s.sent(), 4);
}

#[test]
fn broadcaster_collector_failure_is_the_result() {
    let mut s = BroadcasterSession::new(BROADCASTER);
    for _ in 0..12 {
        s.step(BroadcastEvent::Completed);
    }
    assert_eq!(s.action(), BroadcastAction::JoinCollector);
    assert_eq!(
        s.step(BroadcastEvent::CollectorJoined(Err(Error::ReadData))),
        BroadcastAction::Finish(Err(Error::ReadData))
    );
}

#[test]
fn receiver_acknowledges_ten_probes_to_their_sender() {
    let mut s = ReceiverSession::new(RECEIVER);
    assert_eq!(s.action(), ReceiveAction::Bind(Endpoint { ip: RECEIVER, port: 14000 }));
    assert_eq!(
        s.step(ReceiveEvent::Completed),
        ReceiveAction::JoinGroup { group: Ipv4Address(239, 0, 0, 3), interface: RECEIVER }
    );
    assert_eq!(s.step(ReceiveEvent::Completed), ReceiveAction::Receive);
    for i in 0..10 {
        assert_eq!(
            s.step(ReceiveEvent::Datagram(BROADCASTER)),
            ReceiveAction::Acknowledge(Endpoint { ip: BROADCASTER, port: 14000 })
        );
        let next = s.step(ReceiveEvent::Completed);
        assert_eq!(s.handled(), i + 1);
        if i < 9 {
            assert_eq!(next, ReceiveAction::Receive);
        } else {
            assert_eq!(next, ReceiveAction::Finish(Ok(())));
        }
    }
    assert_eq!(s.step(ReceiveEvent::Datagram(BROADCASTER)), ReceiveAction::Finish(Ok(())));
}

#[test]
fn receiver_acknowledges_to_each_probes_own_source() {
    let mut s = ReceiverSession::new(RECEIVER);
    s.step(ReceiveEvent::Completed);
    s.step(ReceiveEvent::Completed);
    let other = Ipv4Address(10, 0, 0, 7);
    assert_eq!(
        s.step(ReceiveEvent::Datagram(other)),
        ReceiveAction::Acknowledge(Endpoint { ip: other, port: 14000 })
    );
}

#[test]
fn receiver_failures() {
    let mut s = ReceiverSession::new(RECEIVER);
    assert_eq!(s.step(ReceiveEvent::Failed), ReceiveAction::Finish(Err(Error::SocketBind)));
    assert_eq!(s.handled(), 0);

    let mut s = ReceiverSession::new(RECEIVER);
    s.step(ReceiveEvent::Completed);
    assert_eq!(s.step(ReceiveEvent::Failed), ReceiveAction::Finish(Err(Error::SocketBind)));

    let mut s = ReceiverSession::new(RECEIVER);
    s.step(ReceiveEvent::Completed);
    s.step(ReceiveEvent::Completed);
    assert_eq!(s.step(ReceiveEvent::Failed), ReceiveAction::Finish(Err(Error::ReadData)));

    let mut s = ReceiverSession::new(RECEIVER);
    s.step(ReceiveEvent::Completed);
    s.step(ReceiveEvent::Completed);
    s.step(ReceiveEvent::Datagram(BROADCASTER));
    assert_eq!(s.step(ReceiveEvent::ConnectFailed), ReceiveAction::Finish(Err(Error::Connection)));

    let mut s = ReceiverSession::new(RECEIVER);
    s.step(ReceiveEvent::Completed);
    s.step(ReceiveEvent::Completed);
    s.step(ReceiveEvent::Datagram(BROADCASTER));
    assert_eq!(s.step(ReceiveEvent::WriteFailed), ReceiveAction::Finish(Err(Error::SendData)));
}

#[test]
fn receiver_ignores_events_that_answer_nothing_pending() {
    let mut s = ReceiverSession::new(RECEIVER);
    assert_eq!(
        s.step(ReceiveEvent::Datagram(BROADCASTER)),
        ReceiveAction::Bind(Endpoint { ip: RECEIVER, port: 14000 })
    );
    assert_eq!(s.handled(), 0);
}
