use ros_tunnel::engine::{ConsumerCount, ControlFlow, Effect, Notice, Reaction, TopicListing};
use ros_tunnel::framing::{encode_header, encode_message, recv_header, recv_message, DEFAULT_CEILING};
use ros_tunnel::message::{Header, Message};
use ros_tunnel::peer::{Handshake, Peer, PeerError, Phase, PROTOCOL_VERSION};

fn running_peer() -> Peer {
    let mut peer = Peer::new();
    assert_eq!(peer.start(), Some(Header { version: PROTOCOL_VERSION }));
    assert_eq!(peer.receive_header(Header { version: PROTOCOL_VERSION }), Handshake::Accepted);
    assert!(peer.run());
    peer
}

fn line(name: &str, types: &[&str]) -> TopicListing {
    TopicListing { name: name.to_string(), types: types.iter().map(|t| t.to_string()).collect() }
}

#[test]
fn handshake_with_matching_version_runs() {
    let mut peer = Peer::new();
    assert_eq!(peer.phase(), Phase::New);
    assert_eq!(peer.start(), Some(Header { version: 0 }));
    assert_eq!(peer.phase(), Phase::HandshakeSent);
    assert_eq!(peer.receive_header(Header { version: 0 }), Handshake::Accepted);
    assert_eq!(peer.phase(), Phase::HandshakeDone);
    assert!(peer.run());
    assert_eq!(peer.phase(), Phase::Running);
    assert_eq!(peer.exit_code(), 0);
}

#[test]
fn handshake_with_other_version_is_fatal() {
    let mut peer = Peer::new();
    assert_eq!(peer.start(), Some(Header { version: 0 }));
    assert_eq!(
        peer.receive_header(Header { version: 1 }),
        Handshake::Incompatible {
            farewell: Message::FatalError { message: "Remote version incompatible.".to_string() }
        }
    );
    assert_eq!(peer.phase(), Phase::Fatal);
    assert!(!peer.run());
    assert_ne!(peer.exit_code(), 0);
    let farewell = peer.shutdown().unwrap();
    assert!(farewell.cancelled.is_empty());
    assert_eq!(farewell.hangup, None);
    assert_eq!(peer.phase(), Phase::Terminated);
    assert_ne!(peer.exit_code(), 0);
}

#[test]
fn version_mismatch_on_both_sides() {
    // X speaks version 0; Y sends version 1 over the wire.
    let mut wire = Vec::new();
    encode_header(&mut wire, &Header { version: 1 });
    let (remote, _) = recv_header(&wire, DEFAULT_CEILING).unwrap().unwrap();

    let mut x = Peer::new();
    x.start();
    let outcome = x.receive_header(remote);
    let farewell = match outcome {
        Handshake::Incompatible { farewell } => farewell,
        other => panic!("unexpected outcome {:?}", other),
    };
    assert_eq!(
        farewell,
        Message::FatalError { message: "Remote version incompatible.".to_string() }
    );
    assert_eq!(x.exit_code(), 1);

    // The frame that X emits tells Y to end as well, had Y been running.
    let mut frame = Vec::new();
    encode_message(&mut frame, &farewell).unwrap();
    let (received, _) = recv_message(&frame, DEFAULT_CEILING).unwrap().unwrap();
    let mut y = running_peer();
    assert_eq!(
        y.on_message(received),
        Err(PeerError::RemoteFatal { message: "Remote version incompatible.".to_string() })
    );
    assert_eq!(y.phase(), Phase::Fatal);
    assert_ne!(y.exit_code(), 0);
}

#[test]
fn header_out_of_turn_changes_nothing() {
    let mut peer = Peer::new();
    assert_eq!(peer.receive_header(Header { version: 0 }), Handshake::OutOfTurn);
    assert_eq!(peer.phase(), Phase::New);
    let mut peer = running_peer();
    assert_eq!(peer.receive_header(Header { version: 1 }), Handshake::OutOfTurn);
    assert_eq!(peer.phase(), Phase::Running);
    assert_eq!(peer.start(), None);
}

#[test]
fn no_message_is_processed_before_the_handshake() {
    let mut peer = Peer::new();
    let announce = Message::NewTopic { name: "/a".to_string(), message_type: "T".to_string() };
    assert_eq!(peer.on_message(announce.clone()), Err(PeerError::NotRunning));
    peer.start();
    assert_eq!(peer.on_message(announce.clone()), Err(PeerError::NotRunning));
    peer.receive_header(Header { version: 0 });
    assert_eq!(peer.on_message(Message::Hangup), Err(PeerError::NotRunning));
    assert_eq!(peer.phase(), Phase::HandshakeDone);
    assert!(peer.scan_for_topics(&vec![line("/a", &["T"])]).is_none());
    assert!(peer.scan_for_subscriptions(&vec![]).is_none());
    assert!(!peer.publisher_created("/a".to_string()));
    assert!(!peer.subscription_opened("/a".to_string()));
    assert!(peer.run());
    assert_eq!(
        peer.on_message(announce),
        Ok(Reaction {
            flow: ControlFlow::Continue,
            effect: Effect::CreatePublisher {
                name: "/a".to_string(),
                message_type: "T".to_string()
            },
            notice: Notice::Nothing,
        })
    );
}

#[test]
fn signal_shuts_down_in_good_order() {
    let mut peer = running_peer();
    peer.scan_for_topics(&vec![line("/a", &["T"]), line("/b", &["U"])]).unwrap();
    assert!(peer.subscription_opened("/a".to_string()));
    assert!(peer.subscription_opened("/b".to_string()));

    assert!(peer.on_signal());
    assert_eq!(peer.phase(), Phase::Draining);
    // Draining, the peer accepts no more inbound messages.
    assert_eq!(peer.on_message(Message::Hangup), Err(PeerError::NotRunning));

    let farewell = peer.shutdown().unwrap();
    assert_eq!(farewell.hangup, Some(Message::Hangup));
    let mut cancelled = farewell.cancelled;
    cancelled.sort();
    assert_eq!(cancelled, vec!["/a".to_string(), "/b".to_string()]);
    assert_eq!(peer.phase(), Phase::Terminated);
    assert_eq!(peer.exit_code(), 0);
    assert!(peer.shutdown().is_none());
}

#[test]
fn hangup_from_remote_drains() {
    let mut peer = running_peer();
    let reaction = peer.on_message(Message::Hangup).unwrap();
    assert_eq!(reaction.flow, ControlFlow::Exit);
    assert_eq!(peer.phase(), Phase::Draining);
    assert!(peer.shutdown().is_some());
    assert_eq!(peer.exit_code(), 0);
}

#[test]
fn local_failure_exits_non_zero() {
    let mut peer = running_peer();
    assert_eq!(
        peer.fail("Failed to read length".to_string()),
        Some(Message::FatalError { message: "Failed to read length".to_string() })
    );
    assert_eq!(peer.phase(), Phase::Fatal);
    // The remote is told once.
    assert_eq!(peer.fail("again".to_string()), None);
    assert!(peer.shutdown().is_some());
    assert_eq!(peer.phase(), Phase::Terminated);
    assert_eq!(peer.exit_code(), 1);
    assert_eq!(peer.fail("too late".to_string()), None);
    assert_eq!(peer.phase(), Phase::Terminated);

    // A peer that the remote's fatal error ended has nothing to tell it.
    let mut peer = running_peer();
    assert!(peer.on_message(Message::FatalError { message: "boom".to_string() }).is_err());
    assert_eq!(peer.fail("Fatal error from remote: boom".to_string()), None);
    assert_eq!(peer.exit_code(), 1);
}

#[test]
fn shutdown_of_a_running_peer_does_nothing() {
    let mut peer = running_peer();
    assert!(peer.shutdown().is_none());
    assert_eq!(peer.phase(), Phase::Running);
}

/// Carries `message` from one peer to the other as bytes on a wire.
fn carry(message: &Message) -> Message {
    let mut frame = Vec::new();
    encode_message(&mut frame, message).unwrap();
    let (received, end) = recv_message(&frame, DEFAULT_CEILING).unwrap().unwrap();
    assert_eq!(end, frame.len());
    received
}

fn count(name: &str, consumers: usize) -> Vec<ConsumerCount> {
    vec![ConsumerCount { name: name.to_string(), consumers }]
}

#[test]
fn cold_start_single_topic_single_consumer() {
    let mut x = running_peer();
    let mut y = running_peer();
    let x_bus = vec![line("/chat", &["Text"])];
    let y_bus: Vec<TopicListing> = vec![];

    // One scan tick on X announces the topic, and nothing else.
    let scan = x.scan_for_topics(&x_bus).unwrap();
    assert_eq!(
        scan.messages,
        vec![Message::NewTopic { name: "/chat".to_string(), message_type: "Text".to_string() }]
    );
    assert!(x.scan_for_subscriptions(&vec![]).unwrap().is_empty());
    assert!(y.scan_for_topics(&y_bus).unwrap().messages.is_empty());

    // Y creates the mirror publisher.
    let reaction = y.on_message(carry(&scan.messages[0])).unwrap();
    assert_eq!(
        reaction.effect,
        Effect::CreatePublisher { name: "/chat".to_string(), message_type: "Text".to_string() }
    );
    assert!(y.publisher_created("/chat".to_string()));
    assert_eq!(y.publisher_names(), vec!["/chat".to_string()]);

    // The mirror publisher shows on Y's bus; without a consumer nothing is
    // asked of X.
    let y_bus = vec![line("/chat", &["Text"])];
    assert!(y.scan_for_topics(&y_bus).unwrap().messages.is_empty());
    assert!(y.scan_for_subscriptions(&count("/chat", 0)).unwrap().is_empty());

    // A consumer attaches on Y.
    let requests = y.scan_for_subscriptions(&count("/chat", 1)).unwrap();
    assert_eq!(
        requests,
        vec![Message::SetTopicSubscribed { name: "/chat".to_string(), subscribed: true }]
    );

    // X subscribes locally.
    let reaction = x.on_message(carry(&requests[0])).unwrap();
    assert_eq!(
        reaction.effect,
        Effect::Subscribe { name: "/chat".to_string(), message_type: "Text".to_string() }
    );
    assert!(x.subscription_opened("/chat".to_string()));

    // X's bus emits a payload, which its forwarder sends and Y publishes.
    let forwarded =
        Message::PublishToTopic { name: "/chat".to_string(), payload: vec![0x01, 0x02, 0x03] };
    let reaction = y.on_message(carry(&forwarded)).unwrap();
    assert_eq!(
        reaction.effect,
        Effect::Publish { name: "/chat".to_string(), payload: vec![0x01, 0x02, 0x03] }
    );

    // The consumer detaches.
    let requests = y.scan_for_subscriptions(&count("/chat", 0)).unwrap();
    assert_eq!(
        requests,
        vec![Message::SetTopicSubscribed { name: "/chat".to_string(), subscribed: false }]
    );
    let reaction = x.on_message(carry(&requests[0])).unwrap();
    assert_eq!(reaction.effect, Effect::CancelForwarder { name: "/chat".to_string() });

    // Nothing further flows.
    assert!(y.scan_for_subscriptions(&count("/chat", 0)).unwrap().is_empty());
    assert!(x.scan_for_topics(&x_bus).unwrap().messages.is_empty());
}

#[test]
fn default_settings() {
    assert_eq!(PROTOCOL_VERSION, 0);
    assert_eq!(ros_tunnel::peer::SCAN_INTERVAL_SECONDS, 10);
    assert_eq!(ros_tunnel::peer::SERVICE_INTERVAL_MILLISECONDS, 100);
    assert_eq!(ros_tunnel::peer::QUEUE_CAPACITY, 10);
    assert_eq!(DEFAULT_CEILING, 16 * 1024 * 1024);
}
