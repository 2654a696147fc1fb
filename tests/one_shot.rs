use std::collections::HashMap;

use meadow::envelope::{Envelope, MsgType};
use meadow::error::{DecodeError, Error};
use meadow::node::{Active, Idle, Node};

struct Pose {
    x: f32,
    y: f32,
}

struct NotPose;

/// The runtime type tag that a handle of payload type `T` carries.
trait Tagged {
    const TAG: &'static str;
}

impl Tagged for Pose {
    const TAG: &'static str = "Pose";
}

impl Tagged for NotPose {
    const TAG: &'static str = "NotPose";
}

fn tag<T: Tagged>() -> String {
    T::TAG.to_string()
}

/// A host that keeps the latest envelope of each topic.
fn host_answer(store: &mut HashMap<String, Vec<u8>>, request: &[u8]) -> Option<Vec<u8>> {
    let e = Envelope::decode(request).unwrap();
    match e.msg_type {
        MsgType::Pub => {
            store.insert(e.topic.clone(), request.to_vec());
            None
        }
        MsgType::Get => store.get(&e.topic).cloned(),
    }
}

fn active<T: Tagged>(topic: &str) -> Node<Active, T, ()> {
    let node: Node<Idle, T, ()> = Node::new(topic.to_string(), tag::<T>(), 1024);
    node.activate(Some(())).ok().unwrap()
}

#[test]
fn publish_then_request_returns_the_value() {
    let mut store = HashMap::new();
    let node = active::<Pose>("pose");
    let other = active::<Pose>("other");
    for i in 0..5 {
        let pose = Pose { x: i as f32, y: i as f32 };
        let payload = postcard::to_allocvec(&(pose.x, pose.y)).unwrap();
        let publish = node.publish_envelope(100 + i, payload);
        assert!(host_answer(&mut store, &publish.encode()).is_none());
        let noise = other.publish_envelope(200 + i, postcard::to_allocvec(&(-1.0f32, -1.0f32)).unwrap());
        host_answer(&mut store, &noise.encode());

        let reply = host_answer(&mut store, &node.request_envelope(300 + i).encode()).unwrap();
        let got = node.accept_reply(&reply).unwrap();
        let (x, y): (f32, f32) = postcard::from_bytes(&got.data).unwrap();
        assert_eq!((x, y), (pose.x, pose.y));
        assert_eq!(got.timestamp, 100 + i);
        assert_eq!(got.topic, "pose");
    }
}

#[test]
fn request_as_another_type_is_a_mismatch() {
    let pose_node = active::<Pose>("pose");
    let stored = pose_node.publish_envelope(1, postcard::to_allocvec(&(1.0f32, 2.0f32)).unwrap());
    let reply = stored.encode();
    let wrong = active::<NotPose>("pose");
    assert_eq!(wrong.accept_reply(&reply).err(), Some(Error::TypeMismatch));
    assert!(pose_node.accept_reply(&reply).is_ok());
}

#[test]
fn malformed_reply_is_a_decode_error() {
    let node = active::<Pose>("pose");
    assert_eq!(node.accept_reply(&[]).err(), Some(Error::Decode(DecodeError::Malformed)));
}

#[test]
fn activate_without_connection_fails() {
    let node: Node<Idle, Pose, ()> = Node::new("pose".to_string(), tag::<Pose>(), 8);
    assert_eq!(node.activate(None).err(), Some(Error::Connection));
}

#[test]
fn activated_handle_keeps_its_configuration() {
    let node = active::<Pose>("pose");
    assert_eq!(node.topic(), "pose");
    assert_eq!(node.data_type(), &tag::<Pose>());
    assert_eq!(node.max_buffer_size(), 1024);
    assert!(node.connection().is_some());
    let g = node.request_envelope(4);
    assert_eq!(g.msg_type, MsgType::Get);
    assert!(g.data.is_empty());
}
