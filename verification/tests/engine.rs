use ros_tunnel::engine::{
    ConsumerCount, ControlFlow, Effect, Engine, Notice, Reaction, RemoteFatal, Severity,
    TopicListing,
};
use ros_tunnel::message::Message;

fn listing(lines: &[(&str, &[&str])]) -> Vec<TopicListing> {
    lines
        .iter()
        .map(|(name, types)| TopicListing {
            name: name.to_string(),
            types: types.iter().map(|t| t.to_string()).collect(),
        })
        .collect()
}

fn count(name: &str, consumers: usize) -> ConsumerCount {
    ConsumerCount { name: name.to_string(), consumers }
}

fn remark(notice: Notice) -> Reaction {
    Reaction { flow: ControlFlow::Continue, effect: Effect::Nothing, notice }
}

fn perform(effect: Effect) -> Reaction {
    Reaction { flow: ControlFlow::Continue, effect, notice: Notice::Nothing }
}

fn new_topic(name: &str, message_type: &str) -> Message {
    Message::NewTopic { name: name.to_string(), message_type: message_type.to_string() }
}

#[test]
fn fatal_error_ends_the_peer() {
    let mut engine = Engine::new();
    assert_eq!(
        engine.process_command(Message::FatalError { message: "boom".to_string() }),
        Err(RemoteFatal { message: "boom".to_string() })
    );
}

#[test]
fn hangup_asks_to_exit() {
    let mut engine = Engine::new();
    assert_eq!(
        engine.process_command(Message::Hangup),
        Ok(Reaction { flow: ControlFlow::Exit, effect: Effect::Nothing, notice: Notice::Nothing })
    );
}

#[test]
fn topic_is_mirrored() {
    let mut x = Engine::new();
    let mut y = Engine::new();

    let scan = x.scan_for_topics(&listing(&[("/a", &["T"])]));
    assert_eq!(scan.messages, vec![new_topic("/a", "T")]);
    assert!(scan.deleted.is_empty());
    assert!(scan.cancelled.is_empty());
    assert!(scan.untyped.is_empty());

    let reaction = y.process_command(new_topic("/a", "T")).unwrap();
    assert_eq!(
        reaction,
        perform(Effect::CreatePublisher { name: "/a".to_string(), message_type: "T".to_string() })
    );
    assert!(y.publisher_names().is_empty());
    assert!(y.publisher_created("/a".to_string()));
    assert_eq!(y.publisher_names(), vec!["/a".to_string()]);
}

#[test]
fn known_topics_are_announced_once() {
    let mut engine = Engine::new();
    let lines = listing(&[("/a", &["T"]), ("/b", &["U"])]);
    assert_eq!(
        engine.scan_for_topics(&lines).messages,
        vec![new_topic("/a", "T"), new_topic("/b", "U")]
    );
    assert!(engine.scan_for_topics(&lines).messages.is_empty());
    // The first pinning wins until the name vanishes.
    assert!(engine.scan_for_topics(&listing(&[("/a", &["V"]), ("/b", &["U"])])).messages.is_empty());
    assert_eq!(
        engine.process_command(Message::SetTopicSubscribed {
            name: "/a".to_string(),
            subscribed: true
        }),
        Ok(perform(Effect::Subscribe { name: "/a".to_string(), message_type: "T".to_string() }))
    );
}

#[test]
fn first_listed_type_is_pinned() {
    let mut engine = Engine::new();
    let scan = engine.scan_for_topics(&listing(&[("/a", &["First", "Second", "Third"])]));
    assert_eq!(scan.messages, vec![new_topic("/a", "First")]);
}

#[test]
fn topic_without_type_is_skipped() {
    let mut engine = Engine::new();
    let scan = engine.scan_for_topics(&listing(&[("/typeless", &[]), ("/a", &["T"])]));
    assert_eq!(scan.messages, vec![new_topic("/a", "T")]);
    assert_eq!(scan.untyped, vec!["/typeless".to_string()]);
    // It is still unknown, so a subscription to it is refused.
    assert_eq!(
        engine.process_command(Message::SetTopicSubscribed {
            name: "/typeless".to_string(),
            subscribed: true
        }),
        Ok(remark(Notice::UnknownSubscribe))
    );
}

#[test]
fn vanished_topic_is_deleted() {
    let mut x = Engine::new();
    let mut y = Engine::new();
    x.scan_for_topics(&listing(&[("/a", &["T"]), ("/b", &["U"])]));
    y.process_command(new_topic("/a", "T")).unwrap();
    assert!(y.publisher_created("/a".to_string()));

    let scan = x.scan_for_topics(&listing(&[("/b", &["U"])]));
    assert_eq!(scan.messages, vec![Message::DeletedTopic { name: "/a".to_string() }]);
    assert_eq!(scan.deleted, vec!["/a".to_string()]);

    assert_eq!(
        y.process_command(Message::DeletedTopic { name: "/a".to_string() }),
        Ok(perform(Effect::DropPublisher { name: "/a".to_string() }))
    );
    assert!(y.publisher_names().is_empty());
    assert_eq!(
        y.process_command(Message::DeletedTopic { name: "/a".to_string() }),
        Ok(remark(Notice::UnknownDelete))
    );
}

#[test]
fn vanished_topic_loses_its_forwarder() {
    let mut engine = Engine::new();
    engine.scan_for_topics(&listing(&[("/a", &["T"])]));
    assert!(engine.subscription_opened("/a".to_string()));
    let scan = engine.scan_for_topics(&listing(&[]));
    assert_eq!(scan.deleted, vec!["/a".to_string()]);
    assert_eq!(scan.cancelled, vec!["/a".to_string()]);
    assert_eq!(
        engine.process_command(Message::SetTopicSubscribed {
            name: "/a".to_string(),
            subscribed: false
        }),
        Ok(remark(Notice::UnknownUnsubscribe))
    );
}

#[test]
fn new_topic_is_idempotent() {
    let mut engine = Engine::new();
    assert_eq!(
        engine.process_command(new_topic("/b", "U")),
        Ok(perform(Effect::CreatePublisher {
            name: "/b".to_string(),
            message_type: "U".to_string()
        }))
    );
    assert!(engine.publisher_created("/b".to_string()));
    let second = engine.process_command(new_topic("/b", "U")).unwrap();
    assert_eq!(second, remark(Notice::DuplicateTopic));
    assert_eq!(second.notice.severity(), Severity::Warning);
    assert_eq!(engine.publisher_names(), vec!["/b".to_string()]);
}

#[test]
fn unknown_publish_is_dropped() {
    let mut engine = Engine::new();
    let reaction = engine
        .process_command(Message::PublishToTopic { name: "/ghost".to_string(), payload: vec![1] })
        .unwrap();
    assert_eq!(reaction, remark(Notice::UnknownPublish));
    assert_eq!(reaction.notice.severity(), Severity::Warning);
}

#[test]
fn known_publish_is_forwarded() {
    let mut engine = Engine::new();
    engine.process_command(new_topic("/a", "T")).unwrap();
    assert!(engine.publisher_created("/a".to_string()));
    assert_eq!(
        engine.process_command(Message::PublishToTopic {
            name: "/a".to_string(),
            payload: vec![1, 2, 3]
        }),
        Ok(perform(Effect::Publish { name: "/a".to_string(), payload: vec![1, 2, 3] }))
    );
}

#[test]
fn subscribe_and_unsubscribe() {
    let mut engine = Engine::new();
    engine.scan_for_topics(&listing(&[("/a", &["T"])]));
    let subscribe = Message::SetTopicSubscribed { name: "/a".to_string(), subscribed: true };
    let unsubscribe = Message::SetTopicSubscribed { name: "/a".to_string(), subscribed: false };

    assert_eq!(
        engine.process_command(unsubscribe.clone()),
        Ok(remark(Notice::UnknownUnsubscribe))
    );
    assert_eq!(Notice::UnknownUnsubscribe.severity(), Severity::Error);
    assert_eq!(
        engine.process_command(subscribe.clone()),
        Ok(perform(Effect::Subscribe { name: "/a".to_string(), message_type: "T".to_string() }))
    );
    assert!(engine.subscription_opened("/a".to_string()));
    // A second subscription replaces the forwarder.
    assert_eq!(
        engine.process_command(subscribe),
        Ok(Reaction {
            flow: ControlFlow::Continue,
            effect: Effect::Subscribe { name: "/a".to_string(), message_type: "T".to_string() },
            notice: Notice::Resubscribed,
        })
    );
    assert_eq!(
        engine.process_command(unsubscribe.clone()),
        Ok(perform(Effect::CancelForwarder { name: "/a".to_string() }))
    );
    assert_eq!(engine.process_command(unsubscribe), Ok(remark(Notice::UnknownUnsubscribe)));
}

#[test]
fn subscribe_to_unknown_topic_is_refused() {
    let mut engine = Engine::new();
    assert_eq!(
        engine.process_command(Message::SetTopicSubscribed {
            name: "/nowhere".to_string(),
            subscribed: true
        }),
        Ok(remark(Notice::UnknownSubscribe))
    );
    assert_eq!(Notice::UnknownSubscribe.severity(), Severity::Error);
    assert!(!engine.subscription_opened("/nowhere".to_string()));
}

#[test]
fn topics_are_not_looped_back() {
    let mut engine = Engine::new();
    // A mirror publisher shows up on the local bus: it is not announced.
    engine.process_command(new_topic("/a", "T")).unwrap();
    assert!(engine.publisher_created("/a".to_string()));
    let scan = engine.scan_for_topics(&listing(&[("/a", &["T"])]));
    assert!(scan.messages.is_empty());
    assert!(scan.untyped.is_empty());

    // A local topic is announced by the remote: it is not mirrored.
    engine.scan_for_topics(&listing(&[("/a", &["T"]), ("/local", &["L"])]));
    assert_eq!(engine.process_command(new_topic("/local", "L")), Ok(remark(Notice::LoopedTopic)));
    assert!(!engine.publisher_created("/local".to_string()));
    assert_eq!(engine.publisher_names(), vec!["/a".to_string()]);
    assert_eq!(Notice::LoopedTopic.severity(), Severity::Warning);
    assert_eq!(Notice::Nothing.severity(), Severity::Silent);
}

#[test]
fn forwarding_follows_demand() {
    let mut engine = Engine::new();
    engine.process_command(new_topic("/a", "T")).unwrap();
    assert!(engine.publisher_created("/a".to_string()));

    assert!(engine.scan_for_subscriptions(&vec![count("/a", 0)]).is_empty());
    assert_eq!(
        engine.scan_for_subscriptions(&vec![count("/a", 1)]),
        vec![Message::SetTopicSubscribed { name: "/a".to_string(), subscribed: true }]
    );
    assert!(engine.scan_for_subscriptions(&vec![count("/a", 1)]).is_empty());
    assert!(engine.scan_for_subscriptions(&vec![count("/a", 3)]).is_empty());
    assert_eq!(
        engine.scan_for_subscriptions(&vec![count("/a", 0)]),
        vec![Message::SetTopicSubscribed { name: "/a".to_string(), subscribed: false }]
    );
    assert!(engine.scan_for_subscriptions(&vec![count("/a", 0)]).is_empty());
}

#[test]
fn counts_for_strangers_are_passed_over() {
    let mut engine = Engine::new();
    assert!(engine.scan_for_subscriptions(&vec![count("/nobody", 5)]).is_empty());
}

#[test]
fn deleted_topic_forgets_its_demand() {
    let mut engine = Engine::new();
    engine.process_command(new_topic("/a", "T")).unwrap();
    assert!(engine.publisher_created("/a".to_string()));
    assert_eq!(engine.scan_for_subscriptions(&vec![count("/a", 2)]).len(), 1);
    engine.process_command(Message::DeletedTopic { name: "/a".to_string() }).unwrap();
    // Announced anew, the topic starts without demand on record.
    engine.process_command(new_topic("/a", "T")).unwrap();
    assert!(engine.publisher_created("/a".to_string()));
    assert_eq!(
        engine.scan_for_subscriptions(&vec![count("/a", 2)]),
        vec![Message::SetTopicSubscribed { name: "/a".to_string(), subscribed: true }]
    );
}

#[test]
fn cancel_all_names_every_forwarder() {
    let mut engine = Engine::new();
    engine.scan_for_topics(&listing(&[("/a", &["T"]), ("/b", &["U"]), ("/c", &["V"])]));
    assert!(engine.subscription_opened("/a".to_string()));
    assert!(engine.subscription_opened("/c".to_string()));
    let mut cancelled = engine.cancel_all();
    cancelled.sort();
    assert_eq!(cancelled, vec!["/a".to_string(), "/c".to_string()]);
    assert!(engine.cancel_all().is_empty());
}

#[test]
fn several_deletions_are_all_sent() {
    let mut engine = Engine::new();
    engine.scan_for_topics(&listing(&[("/a", &["T"]), ("/b", &["U"]), ("/c", &["V"])]));
    let scan = engine.scan_for_topics(&listing(&[("/b", &["U"]), ("/d", &["W"])]));
    let mut deleted = scan.deleted.clone();
    deleted.sort();
    assert_eq!(deleted, vec!["/a".to_string(), "/c".to_string()]);
    assert_eq!(scan.messages.len(), 3);
    for (message, name) in scan.messages.iter().zip(scan.deleted.iter()) {
        assert_eq!(message, &Message::DeletedTopic { name: name.clone() });
    }
    assert_eq!(scan.messages[2], new_topic("/d", "W"));
}
