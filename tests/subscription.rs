use meadow::engine::{Action, PollEvent, SubscriptionEngine};
use meadow::envelope::Envelope;
use meadow::node::{Idle, Node};

fn pose_bytes(x: f32, y: f32) -> Vec<u8> {
    postcard::to_allocvec(&(x, y)).unwrap()
}

fn reply(t: i64, x: f32, y: f32) -> Vec<u8> {
    Envelope::publish(t, "pose".to_string(), "Pose".to_string(), pose_bytes(x, y)).encode()
}

#[test]
fn late_stale_reply_does_not_overwrite() {
    let node: Node<Idle, (), ()> = Node::new("pose".to_string(), "Pose".to_string(), 1024);
    let sub = node.subscribe(Some(()), 250).ok().unwrap();
    let engine = sub.engine;
    let mut slot = sub.slot;
    assert!(slot.read().is_none());

    let (t0, t1, t2) = (1_000i64, 2_000i64, 1_500i64);
    let a = engine.step(&mut slot, SubscriptionEngine::reply_event(&reply(t0, 0.0, 0.0)));
    assert_eq!(a, Action::Sleep(250));
    let a = engine.step(&mut slot, SubscriptionEngine::reply_event(&reply(t1, 1.0, 1.0)));
    assert_eq!(a, Action::Sleep(250));
    let a = engine.step(&mut slot, SubscriptionEngine::reply_event(&reply(t2, 0.0, 0.0)));
    assert_eq!(a, Action::RetryNow);

    let v = slot.read().unwrap();
    assert_eq!(v.timestamp, t1);
    assert_eq!(v.data, pose_bytes(1.0, 1.0));
}

#[test]
fn fresh_subscription_reads_nothing() {
    let node: Node<Idle, (), ()> = Node::new("pose".to_string(), "Pose".to_string(), 64);
    let sub = node.subscribe(Some(()), 10).ok().unwrap();
    assert!(sub.slot.read().is_none());
}

#[test]
fn failures_retry_at_once_and_keep_the_value() {
    let engine = SubscriptionEngine::new("pose".to_string(), "Pose".to_string(), 100);
    let mut slot = meadow::slot::CachedSlot::new();
    assert_eq!(engine.step(&mut slot, SubscriptionEngine::reply_event(&reply(7, 2.0, 3.0))), Action::Sleep(100));
    for ev in [PollEvent::EncodeFailed, PollEvent::NoConnection, PollEvent::ExchangeFailed, PollEvent::DecodeFailed] {
        assert_eq!(engine.step(&mut slot, ev), Action::RetryNow);
        assert_eq!(slot.timestamp(), Some(7));
    }
    assert!(matches!(SubscriptionEngine::reply_event(&[1, 2]), PollEvent::DecodeFailed));
}

#[test]
fn reply_of_another_type_is_ignored() {
    let engine = SubscriptionEngine::new("pose".to_string(), "Pose".to_string(), 100);
    let mut slot = meadow::slot::CachedSlot::new();
    let other = Envelope::publish(9, "pose".to_string(), "NotPose".to_string(), vec![1]).encode();
    assert_eq!(engine.step(&mut slot, SubscriptionEngine::reply_event(&other)), Action::RetryNow);
    assert!(slot.read().is_none());
}

#[test]
fn poll_request_is_an_empty_get() {
    let engine = SubscriptionEngine::new("pose".to_string(), "Pose".to_string(), 100);
    let r = engine.request(12);
    assert_eq!(r.msg_type, meadow::envelope::MsgType::Get);
    assert_eq!(r.topic, "pose");
    assert_eq!(r.data_type, "Pose");
    assert!(r.data.is_empty());
    assert_eq!(r.timestamp, 12);
}

#[test]
fn subscribe_without_connection_fails() {
    let node: Node<Idle, (), ()> = Node::new("pose".to_string(), "Pose".to_string(), 64);
    assert_eq!(node.subscribe(None, 10).err(), Some(meadow::error::Error::Connection));
}
