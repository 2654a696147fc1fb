use vstd::prelude::*;

use crate::engine::SubscriptionEngine;
use crate::envelope::{decode_spec, Envelope, EnvelopeView, MsgType};
use crate::error::Error;
use crate::slot::CachedSlot;

use core::marker::PhantomData;

verus! {

/// Lifecycle state of a fresh handle: configured, not connected.
#[derive(Debug)]
pub struct Idle;

/// Lifecycle state of a handle connected for one-shot requests and publishes.
#[derive(Debug)]
pub struct Active;

/// Lifecycle state of a handle whose value is kept fresh by a background task.
#[derive(Debug)]
pub struct Subscription;

/// A client handle bound to one topic and one payload type `T`, in the
/// lifecycle state `S`, over a transport whose established session is a `C`.
/// Each transition consumes the handle and returns one of another type, so
/// an operation of another state cannot be called on it.
pub struct Node<S, T, C> {
    state: PhantomData<S>,
    payload: PhantomData<T>,
    topic: String,
    data_type: String,
    max_buffer_size: usize,
    connection: Option<C>,
}

/// The result of a successful subscription: the handle, the decisions of its
/// background task, the session that task takes over, and the empty slot
/// that it fills.
pub struct Subscribed<T, C> {
    pub node: Node<Subscription, T, C>,
    pub engine: SubscriptionEngine,
    pub connection: C,
    pub slot: CachedSlot,
}

impl<S, T, C> Node<S, T, C> {
    pub closed spec fn topic_spec(&self) -> Seq<char> {
        self.topic@
    }

    pub closed spec fn data_type_spec(&self) -> Seq<char> {
        self.data_type@
    }

    pub closed spec fn max_buffer_size_spec(&self) -> usize {
        self.max_buffer_size
    }

    /// The handle holds an established session.
    pub closed spec fn connected(&self) -> bool {
        self.connection is Some
    }

    pub fn topic(&self) -> (r: &String)
        ensures
            r@ == self.topic_spec(),
    {
        &self.topic
    }

    pub fn data_type(&self) -> (r: &String)
        ensures
            r@ == self.data_type_spec(),
    {
        &self.data_type
    }

    /// Size of the buffer a reply is read into.
    pub fn max_buffer_size(&self) -> (r: usize)
        ensures
            r == self.max_buffer_size_spec(),
    {
        self.max_buffer_size
    }

    /// The established session, if the handle holds one.
    pub fn connection(&self) -> (r: Option<&C>)
        ensures
            r is Some == self.connected(),
    {
        match &self.connection {
            Some(c) => Some(c),
            None => None,
        }
    }
}

impl<T, C> Node<Idle, T, C> {
    /// A handle for `topic`, whose payloads are tagged `data_type`, the name
    /// of `T`, and whose replies are read into a buffer of `max_buffer_size`.
    pub fn new(topic: String, data_type: String, max_buffer_size: usize) -> (r: Node<Idle, T, C>)
        ensures
            r.topic_spec() == topic@,
            r.data_type_spec() == data_type@,
            r.max_buffer_size_spec() == max_buffer_size,
            !r.connected(),
    {
        Node {
            state: PhantomData,
            payload: PhantomData,
            topic,
            data_type,
            max_buffer_size,
            connection: None,
        }
    }

    /// Moves to the one-shot state over `connection`, the session that the
    /// transport established with the host, or `None` where its handshake
    /// did not complete: then the result is a connection error.
    pub fn activate(self, connection: Option<C>) -> (r: Result<Node<Active, T, C>, Error>)
        ensures
            connection is None ==> r == Err::<Node<Active, T, C>, Error>(Error::Connection),
            connection is Some ==> (r matches Ok(n) && n.connected() && n.topic_spec()
                == self.topic_spec() && n.data_type_spec() == self.data_type_spec()
                && n.max_buffer_size_spec() == self.max_buffer_size_spec()),
    {
        match connection {
            None => Err(Error::Connection),
            Some(c) => Ok(
                Node {
                    state: PhantomData,
                    payload: PhantomData,
                    topic: self.topic,
                    data_type: self.data_type,
                    max_buffer_size: self.max_buffer_size,
                    connection: Some(c),
                },
            ),
        }
    }

    /// Moves to the continuous state over `connection` (or fails, as
    /// `activate` does, where there is none). The session goes to the polling
    /// task, with an engine for this topic and type tag that pauses `rate_ms`
    /// after each accepted reply, and a slot that starts empty.
    pub fn subscribe(self, connection: Option<C>, rate_ms: u64) -> (r: Result<
        Subscribed<T, C>,
        Error,
    >)
        ensures
            connection is None ==> (r matches Err(e) && e == Error::Connection),
            connection is Some ==> (r matches Ok(s) && s.connection == connection->0
                && s.slot@ is None && s.engine.topic@ == self.topic_spec()
                && s.engine.data_type@ == self.data_type_spec() && s.engine.rate_ms == rate_ms
                && s.node.topic_spec() == self.topic_spec() && s.node.data_type_spec()
                == self.data_type_spec() && s.node.max_buffer_size_spec()
                == self.max_buffer_size_spec() && !s.node.connected()),
    {
        match connection {
            None => Err(Error::Connection),
            Some(c) => {
                let engine = SubscriptionEngine::new(
                    self.topic.clone(),
                    self.data_type.clone(),
                    rate_ms,
                );
                let node = Node {
                    state: PhantomData,
                    payload: PhantomData,
                    topic: self.topic,
                    data_type: self.data_type,
                    max_buffer_size: self.max_buffer_size,
                    connection: None,
                };
                Ok(Subscribed { node, engine, connection: c, slot: CachedSlot::new() })
            },
        }
    }
}

/// What a one-shot request makes of the bytes of a reply, for a handle that
/// expects the type tag `data_type`.
pub open spec fn reply_spec(data_type: Seq<char>, b: Seq<u8>) -> Result<EnvelopeView, Error> {
    match decode_spec(b) {
        Err(x) => Err(Error::Decode(x)),
        Ok(e) => {
            if e.data_type == data_type {
                Ok(e)
            } else {
                Err(Error::TypeMismatch)
            }
        },
    }
}

impl<T, C> Node<Active, T, C> {
    /// The GET request of a one-shot `request`.
    pub fn request_envelope(&self, timestamp: i64) -> (r: Envelope)
        ensures
            r@ == (EnvelopeView {
                msg_type: MsgType::Get,
                timestamp,
                topic: self.topic_spec(),
                data_type: self.data_type_spec(),
                data: Seq::empty(),
            }),
    {
        Envelope::get(timestamp, self.topic.clone(), self.data_type.clone())
    }

    /// The PUB request of a one-shot `publish` of the serialized value `data`.
    pub fn publish_envelope(&self, timestamp: i64, data: Vec<u8>) -> (r: Envelope)
        ensures
            r@ == (EnvelopeView {
                msg_type: MsgType::Pub,
                timestamp,
                topic: self.topic_spec(),
                data_type: self.data_type_spec(),
                data: data@,
            }),
    {
        Envelope::publish(timestamp, self.topic.clone(), self.data_type.clone(), data)
    }

    /// Reads the reply to a one-shot request: a decode error where the bytes
    /// are no envelope, a type mismatch where the reply declares another
    /// payload type than this handle's, else the reply.
    pub fn accept_reply(&self, bytes: &[u8]) -> (r: Result<Envelope, Error>)
        ensures
            match r {
                Ok(e) => reply_spec(self.data_type_spec(), bytes@) == Ok::<EnvelopeView, Error>(
                    e@,
                ),
                Err(x) => reply_spec(self.data_type_spec(), bytes@) == Err::<EnvelopeView, Error>(
                    x,
                ),
            },
    {
        match Envelope::decode(bytes) {
            Err(x) => Err(Error::Decode(x)),
            Ok(e) => {
                if e.data_type == self.data_type {
                    Ok(e)
                } else {
                    Err(Error::TypeMismatch)
                }
            },
        }
    }
}

/// A reply that decodes but declares a payload type other than the one a
/// handle expects is refused as a type mismatch: its payload is never handed
/// out as a value of the expected type.
pub proof fn lemma_mismatched_reply_refused(data_type: Seq<char>, b: Seq<u8>)
    requires
        decode_spec(b) matches Ok(e) && e.data_type != data_type,
    ensures
        reply_spec(data_type, b) == Err::<EnvelopeView, Error>(Error::TypeMismatch),
{
}

} // verus!
