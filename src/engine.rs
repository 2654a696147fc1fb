use vstd::prelude::*;

use crate::envelope::{decode_spec, Envelope, EnvelopeView};
use crate::slot::{is_newer, not_older, offer_spec, CachedSlot, SlotView};

verus! {

/// What one poll of a subscription came to, as the task that runs the
/// exchange reports it.
#[derive(Debug)]
pub enum PollEvent {
    /// The request could not be serialized.
    EncodeFailed,
    /// No connection is available.
    NoConnection,
    /// Opening the stream, writing the request or reading the reply failed.
    ExchangeFailed,
    /// The reply could not be decoded.
    DecodeFailed,
    /// A decoded reply.
    Reply(Envelope),
}

/// What the polling task does next.
#[derive(Clone, Copy, Debug, PartialEq, Eq, Structural)]
pub enum Action {
    /// Start the next poll at once.
    RetryNow,
    /// Wait this many milliseconds, then poll again.
    Sleep(u64),
}

/// The decisions of a subscription's background task: it builds the GET
/// request, and feeds the slot with replies that carry the expected type
/// tag and are strictly newer than the value held.
#[derive(Debug)]
pub struct SubscriptionEngine {
    pub topic: String,
    pub data_type: String,
    /// The delay after an accepted reply, in milliseconds.
    pub rate_ms: u64,
}

/// Whether a decoded reply is fed to the slot: its type tag is the expected one.
pub open spec fn reply_usable(data_type: Seq<char>, reply: EnvelopeView) -> bool {
    reply.data_type == data_type
}

/// The slot and the action after a reply.
pub open spec fn on_reply_spec(
    data_type: Seq<char>,
    rate_ms: u64,
    s: SlotView,
    reply: EnvelopeView,
) -> (SlotView, Action) {
    if reply_usable(data_type, reply) && is_newer(s, reply.timestamp) {
        (offer_spec(s, reply.timestamp, reply.data), Action::Sleep(rate_ms))
    } else {
        (s, Action::RetryNow)
    }
}

impl SubscriptionEngine {
    pub fn new(topic: String, data_type: String, rate_ms: u64) -> (r: SubscriptionEngine)
        ensures
            r.topic@ == topic@,
            r.data_type@ == data_type@,
            r.rate_ms == rate_ms,
    {
        SubscriptionEngine { topic, data_type, rate_ms }
    }

    /// The GET request sent at each poll: this topic and type tag, no payload.
    pub fn request(&self, timestamp: i64) -> (r: Envelope)
        ensures
            r@ == (EnvelopeView {
                msg_type: crate::envelope::MsgType::Get,
                timestamp,
                topic: self.topic@,
                data_type: self.data_type@,
                data: Seq::empty(),
            }),
    {
        Envelope::get(timestamp, self.topic.clone(), self.data_type.clone())
    }

    /// Turns the bytes of a reply into an event.
    pub fn reply_event(bytes: &[u8]) -> (r: PollEvent)
        ensures
            match decode_spec(bytes@) {
                Ok(e) => r matches PollEvent::Reply(x) && x@ == e,
                Err(_) => r is DecodeFailed,
            },
    {
        match Envelope::decode(bytes) {
            Ok(e) => PollEvent::Reply(e),
            Err(_) => PollEvent::DecodeFailed,
        }
    }

    /// One decision of the polling loop. Every failure, a reply of another
    /// type and a reply no newer than the value held leave the slot as it is
    /// and poll again at once; an accepted reply replaces the slot's value
    /// and is followed by a pause of `rate_ms`.
    pub fn step(&self, slot: &mut CachedSlot, event: PollEvent) -> (a: Action)
        ensures
            match event {
                PollEvent::Reply(e) => (final(slot)@, a) == on_reply_spec(
                    self.data_type@,
                    self.rate_ms,
                    old(slot)@,
                    e@,
                ),
                _ => final(slot)@ == old(slot)@ && a == Action::RetryNow,
            },
    {
        match event {
            PollEvent::Reply(e) => {
                if e.data_type != self.data_type {
                    return Action::RetryNow;
                }
                if slot.offer(e.timestamp, e.data) {
                    Action::Sleep(self.rate_ms)
                } else {
                    Action::RetryNow
                }
            },
            _ => Action::RetryNow,
        }
    }
}

/// The slot after the engine has handled `replies`, first to last.
pub open spec fn replies_spec(
    data_type: Seq<char>,
    rate_ms: u64,
    s: SlotView,
    replies: Seq<EnvelopeView>,
) -> SlotView
    decreases replies.len(),
{
    if replies.len() == 0 {
        s
    } else {
        replies_spec(
            data_type,
            rate_ms,
            on_reply_spec(data_type, rate_ms, s, replies[0]).0,
            replies.drop_first(),
        )
    }
}

/// However the host's replies arrive (reordered, duplicated, of another
/// type), the timestamp of the value a subscription holds never decreases.
pub proof fn lemma_polling_never_regresses(
    data_type: Seq<char>,
    rate_ms: u64,
    s: SlotView,
    replies: Seq<EnvelopeView>,
)
    ensures
        not_older(s, replies_spec(data_type, rate_ms, s, replies)),
    decreases replies.len(),
{
    if replies.len() > 0 {
        let t = on_reply_spec(data_type, rate_ms, s, replies[0]).0;
        lemma_polling_never_regresses(data_type, rate_ms, t, replies.drop_first());
    }
}

} // verus!
