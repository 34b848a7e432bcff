use chatsr::broadcast::BroadcastRound;
use chatsr::endpoint::{Endpoint, Peer};
use chatsr::envelope::Envelope;
use chatsr::frame::{
    classify_datagram, classify_stream_frame, frame_is_sentinel, sentinel_frame, DatagramAction,
    StreamAction, MAX_FRAME_LEN,
};
use chatsr::hub::{AcceptOutcome, Hub};
use chatsr::worker::StreamConn;

fn peer(n: u64) -> Peer {
    Peer { endpoint: Endpoint { addr: 10 + n as u128, port: 4000 + n as u16 }, conn: n }
}

#[test]
fn short_frames_are_never_relayed() {
    let empty: Vec<u8> = vec![];
    let one: Vec<u8> = vec![7];
    let three: Vec<u8> = vec![97, 98, 99];
    let four: Vec<u8> = vec![97, 98, 99, 100];
    assert_eq!(classify_stream_frame(&empty), StreamAction::Close);
    assert_eq!(classify_stream_frame(&one), StreamAction::Ignore);
    assert_eq!(classify_stream_frame(&three), StreamAction::Ignore);
    assert_eq!(classify_stream_frame(&four), StreamAction::Relay);
    assert_eq!(classify_datagram(&empty), DatagramAction::Ignore);
    assert_eq!(classify_datagram(&one), DatagramAction::Ignore);
    assert_eq!(classify_datagram(&three), DatagramAction::Ignore);
    assert_eq!(classify_datagram(&four), DatagramAction::Forward);
}

#[test]
fn sentinel_closes_stream_but_not_datagram_relay() {
    let end = sentinel_frame();
    assert!(frame_is_sentinel(&end));
    assert_eq!(end, vec![b'e', b'n', b'd']);
    assert_eq!(classify_stream_frame(&end), StreamAction::Close);
    // A datagram sentinel is a best-effort notice from one sender; the
    // shared socket keeps relaying for everyone.
    assert_eq!(classify_datagram(&end), DatagramAction::Ignore);
}

#[test]
fn largest_frame_is_relayed_whole() {
    let big: Vec<u8> = vec![42; MAX_FRAME_LEN];
    assert_eq!(classify_stream_frame(&big), StreamAction::Relay);
    assert_eq!(classify_datagram(&big), DatagramAction::Forward);
}

#[test]
fn worker_relays_until_sentinel_then_ignores_everything() {
    let mut conn = StreamConn::new(peer(1).endpoint);
    let payload: Vec<u8> = vec![1, 2, 3, 4, 5];
    assert_eq!(conn.on_read(Some(&payload)), StreamAction::Relay);
    assert_eq!(conn.on_read(Some(&payload)), StreamAction::Relay);
    let end = sentinel_frame();
    assert_eq!(conn.on_read(Some(&end)), StreamAction::Close);
    assert!(conn.is_closing());
    // More bytes may arrive before the socket fully closes: nothing is
    // relayed on this connection's behalf any more.
    assert_eq!(conn.on_read(Some(&payload)), StreamAction::Ignore);
    assert_eq!(conn.on_read(None), StreamAction::Ignore);
}

#[test]
fn worker_closes_on_empty_read_and_on_error() {
    let mut conn = StreamConn::new(peer(1).endpoint);
    let empty: Vec<u8> = vec![];
    assert_eq!(conn.on_read(Some(&empty)), StreamAction::Close);
    assert!(conn.is_closing());

    let mut conn2 = StreamConn::new(peer(2).endpoint);
    assert_eq!(conn2.on_read(None), StreamAction::Close);
    assert!(conn2.is_closing());
}

#[test]
fn broadcast_attempts_every_other_peer_exactly_once() {
    let mut hub = Hub::new();
    assert_eq!(hub.try_accept(peer(1)), AcceptOutcome::Accepted);
    assert_eq!(hub.try_accept(peer(2)), AcceptOutcome::Accepted);
    assert_eq!(hub.try_accept(peer(3)), AcceptOutcome::Accepted);
    assert_eq!(hub.try_accept(peer(4)), AcceptOutcome::Accepted);
    let mut round = hub.begin_broadcast(peer(2).endpoint);
    let mut attempts: Vec<Endpoint> = vec![];
    while let Some(p) = round.next_target() {
        attempts.push(p.endpoint);
        round.record(true);
    }
    assert_eq!(attempts.len(), 3);
    assert!(!attempts.contains(&peer(2).endpoint));
    assert!(attempts.contains(&peer(1).endpoint));
    assert!(attempts.contains(&peer(3).endpoint));
    assert!(attempts.contains(&peer(4).endpoint));
}

#[test]
fn one_failed_write_does_not_stop_the_round() {
    let targets = vec![peer(1), peer(2), peer(3)];
    let mut round = BroadcastRound::new(targets);
    let first = round.next_target().unwrap();
    assert_eq!(first, peer(1));
    round.record(true);
    // The write to the second recipient fails; it is skipped, not retried.
    let second = round.next_target().unwrap();
    assert_eq!(second, peer(2));
    round.record(false);
    // The remaining recipient still gets the frame.
    let third = round.next_target().unwrap();
    assert_eq!(third, peer(3));
    round.record(true);
    assert!(round.is_done());
    assert_eq!(round.delivered_peers(), &vec![peer(1), peer(3)]);
    assert_eq!(round.failed_peers(), &vec![peer(2)]);
}

#[test]
fn shutdown_refuses_new_connections_but_drains_workers() {
    let mut hub = Hub::new();
    assert!(hub.start_datagram_worker());
    assert_eq!(hub.try_accept(peer(1)), AcceptOutcome::Accepted);
    assert_eq!(hub.try_accept(peer(2)), AcceptOutcome::Accepted);
    assert!(hub.accepting());
    hub.set_shutdown();
    assert!(!hub.accepting());
    assert_eq!(hub.try_accept(peer(3)), AcceptOutcome::Refused);
    assert!(!hub.contains(peer(3).endpoint));
    // The join completes only after every running worker has exited.
    assert!(!hub.join_done());
    let mut conn1 = StreamConn::new(peer(1).endpoint);
    conn1.on_read(None);
    hub.connection_closed(&mut conn1);
    assert!(!hub.join_done());
    let mut conn2 = StreamConn::new(peer(2).endpoint);
    conn2.on_read(Some(&sentinel_frame()));
    hub.connection_closed(&mut conn2);
    assert!(!hub.join_done());
    hub.datagram_worker_stopped();
    assert!(hub.join_done());
}

#[test]
fn duplicate_accept_changes_nothing() {
    let mut hub = Hub::new();
    assert_eq!(hub.try_accept(peer(1)), AcceptOutcome::Accepted);
    let again = Peer { endpoint: peer(1).endpoint, conn: 77 };
    assert_eq!(hub.try_accept(again), AcceptOutcome::Duplicate);
    assert_eq!(hub.peer_count(), 1);
}

#[test]
fn datagram_worker_not_started_after_shutdown() {
    let mut hub = Hub::new();
    hub.set_shutdown();
    assert!(!hub.start_datagram_worker());
    assert!(hub.join_done());
}

#[test]
fn hub_step_opens_a_round_only_for_relayable_frames() {
    let mut hub = Hub::new();
    assert_eq!(hub.try_accept(peer(1)), AcceptOutcome::Accepted);
    assert_eq!(hub.try_accept(peer(2)), AcceptOutcome::Accepted);
    let mut conn = StreamConn::new(peer(1).endpoint);
    let payload: Vec<u8> = vec![9, 9, 9, 9];
    let (act, round) = hub.handle_stream_read(&mut conn, Some(&payload));
    assert_eq!(act, StreamAction::Relay);
    let mut round = round.unwrap();
    assert_eq!(round.next_target().unwrap(), peer(2));
    round.record(true);
    assert!(round.is_done());
    // Noise opens no round.
    let noise: Vec<u8> = vec![1];
    let (act2, round2) = hub.handle_stream_read(&mut conn, Some(&noise));
    assert_eq!(act2, StreamAction::Ignore);
    assert!(round2.is_none());
    // The sentinel closes the worker and opens no round.
    let end = sentinel_frame();
    let (act3, round3) = hub.handle_stream_read(&mut conn, Some(&end));
    assert_eq!(act3, StreamAction::Close);
    assert!(round3.is_none());
    // After closing, nothing is relayed any more.
    let (act4, round4) = hub.handle_stream_read(&mut conn, Some(&payload));
    assert_eq!(act4, StreamAction::Ignore);
    assert!(round4.is_none());
}

#[test]
fn datagram_step_forwards_payloads_and_drops_noise() {
    let mut hub = Hub::new();
    assert_eq!(hub.try_accept(peer(1)), AcceptOutcome::Accepted);
    assert_eq!(hub.try_accept(peer(2)), AcceptOutcome::Accepted);
    assert_eq!(hub.try_accept(peer(3)), AcceptOutcome::Accepted);
    let payload: Vec<u8> = vec![9, 9, 9, 9];

    // A datagram-only sender is not in the registry: everyone receives.
    let outsider = Endpoint { addr: 99, port: 9 };
    let mut round = hub.handle_datagram(outsider, &payload).unwrap();
    let mut n = 0;
    while round.next_target().is_some() {
        round.record(true);
        n += 1;
    }
    assert_eq!(n, 3);

    // From a registered sender the datagram reaches only the other two.
    let mut round2 = hub.handle_datagram(peer(2).endpoint, &payload).unwrap();
    let mut targets: Vec<Endpoint> = vec![];
    while let Some(p) = round2.next_target() {
        targets.push(p.endpoint);
        round2.record(true);
    }
    assert_eq!(targets, vec![peer(1).endpoint, peer(3).endpoint]);

    // Short datagrams, the sentinel included, are dropped unforwarded.
    let end = sentinel_frame();
    assert!(hub.handle_datagram(outsider, &end).is_none());
    let noise: Vec<u8> = vec![0, 1];
    assert!(hub.handle_datagram(peer(1).endpoint, &noise).is_none());
}

#[test]
fn three_participants_scenario() {
    let mut hub = Hub::new();
    let a = peer(1);
    let b = peer(2);
    let c = peer(3);
    assert_eq!(hub.try_accept(a), AcceptOutcome::Accepted);
    assert_eq!(hub.try_accept(b), AcceptOutcome::Accepted);
    assert_eq!(hub.try_accept(c), AcceptOutcome::Accepted);
    let mut conn_a = StreamConn::new(a.endpoint);
    let mut conn_c = StreamConn::new(c.endpoint);

    // A sends one envelope; the serialized payload is forwarded verbatim.
    let env = Envelope {
        time: String::from("10:00:00"),
        nick: String::from("A"),
        text: String::from("hi\n"),
    };
    let wire = env.to_wire();
    assert_eq!(wire, "{\"time\":\"10:00:00\",\"nick\":\"A\",\"text\":\"hi\\n\"}");
    let frame = wire.as_bytes();
    assert_eq!(conn_a.on_read(Some(frame)), StreamAction::Relay);
    let mut round = hub.begin_broadcast(a.endpoint);
    let mut received: Vec<(Endpoint, Vec<u8>)> = vec![];
    while let Some(p) = round.next_target() {
        received.push((p.endpoint, frame.to_vec()));
        round.record(true);
    }
    // B and C each receive that exact byte payload once; A receives nothing.
    assert_eq!(received.len(), 2);
    assert_eq!(received[0].0, b.endpoint);
    assert_eq!(received[1].0, c.endpoint);
    assert_eq!(received[0].1, frame.to_vec());
    assert_eq!(received[1].1, frame.to_vec());

    // C sends the sentinel: its endpoint leaves the registry.
    let end = sentinel_frame();
    assert_eq!(conn_c.on_read(Some(&end)), StreamAction::Close);
    hub.connection_closed(&mut conn_c);
    assert!(!hub.contains(c.endpoint));
    assert_eq!(hub.peer_count(), 2);

    // A further send from A reaches only B.
    assert_eq!(conn_a.on_read(Some(frame)), StreamAction::Relay);
    let mut round2 = hub.begin_broadcast(a.endpoint);
    let mut second: Vec<Endpoint> = vec![];
    while let Some(p) = round2.next_target() {
        second.push(p.endpoint);
        round2.record(true);
    }
    assert_eq!(second, vec![b.endpoint]);
}
