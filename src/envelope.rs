use vstd::prelude::*;

use crate::error::DecodeError;

verus! {

/// The kind of an exchange.
#[derive(Clone, Copy, Debug, PartialEq, Eq, Structural)]
pub enum MsgType {
    /// "Send me the latest value."
    Get,
    /// "Store this value."
    Pub,
}

/// The one unit sent on the wire, in either direction.
#[derive(Debug)]
pub struct Envelope {
    pub msg_type: MsgType,
    /// Creation time on the producer's side, in microseconds since the Unix epoch.
    pub timestamp: i64,
    pub topic: String,
    /// Name of the payload's static type, used as a runtime type tag.
    pub data_type: String,
    /// The serialized payload; empty in a GET request.
    pub data: Vec<u8>,
}

/// The mathematical value of an envelope.
pub struct EnvelopeView {
    pub msg_type: MsgType,
    pub timestamp: i64,
    pub topic: Seq<char>,
    pub data_type: Seq<char>,
    pub data: Seq<u8>,
}

impl View for Envelope {
    type V = EnvelopeView;

    open spec fn view(&self) -> EnvelopeView {
        EnvelopeView {
            msg_type: self.msg_type,
            timestamp: self.timestamp,
            topic: self.topic@,
            data_type: self.data_type@,
            data: self.data@,
        }
    }
}

/// The byte that stands for a message kind on the wire.
pub open spec fn kind_tag(m: MsgType) -> u8 {
    match m {
        MsgType::Get => 0,
        MsgType::Pub => 1,
    }
}

/// The tuple of fields that postcard's decoder reads from `b`, if it reads one.
pub uninterp spec fn postcard_fields(b: Seq<u8>) -> Option<(u8, i64, Seq<char>, Seq<char>, Seq<u8>)>;

/// The bytes that postcard's encoder writes for a tuple of fields.
pub uninterp spec fn postcard_bytes(fields: (u8, i64, Seq<char>, Seq<char>, Seq<u8>)) -> Seq<u8>;

/// The wire bytes of an envelope.
pub open spec fn encode_spec(e: EnvelopeView) -> Seq<u8> {
    postcard_bytes((kind_tag(e.msg_type), e.timestamp, e.topic, e.data_type, e.data))
}

/// What `decode` makes of a byte sequence.
pub open spec fn decode_spec(b: Seq<u8>) -> Result<EnvelopeView, DecodeError> {
    match postcard_fields(b) {
        None => Err(DecodeError::Malformed),
        Some(f) => {
            if f.0 == 0 || f.0 == 1 {
                Ok(
                    EnvelopeView {
                        msg_type: if f.0 == 0 { MsgType::Get } else { MsgType::Pub },
                        timestamp: f.1,
                        topic: f.2,
                        data_type: f.3,
                        data: f.4,
                    },
                )
            } else {
                Err(DecodeError::UnknownKind)
            }
        },
    }
}

/// A well-formed envelope: a GET request carries no payload.
pub open spec fn valid_envelope(e: EnvelopeView) -> bool {
    e.msg_type == MsgType::Get ==> e.data.len() == 0
}

/// Relies on postcard::to_allocvec on a tuple of an integer tag, an i64, two
/// strings and a byte vector: its bytes depend on the fields alone, its Vec
/// flavor never fails for such a tuple (every length is known), and
/// postcard::from_bytes reads the same tuple back from them.
#[verifier::external_body]
fn postcard_encode(
    tag: u8,
    timestamp: i64,
    topic: &String,
    data_type: &String,
    data: &Vec<u8>,
) -> (r: Option<Vec<u8>>)
    ensures
        r is Some,
        r is Some ==> (r->0)@ == postcard_bytes((tag, timestamp, topic@, data_type@, data@)),
        r is Some ==> postcard_fields((r->0)@) == Some((tag, timestamp, topic@, data_type@, data@)),
{
    postcard::to_allocvec(&(tag, timestamp, topic, data_type, data)).ok()
}

/// Relies on postcard::from_bytes for the tuple that `postcard_encode` writes:
/// it either reads the fields or fails, as a function of the bytes alone.
#[verifier::external_body]
fn postcard_decode(bytes: &[u8]) -> (r: Option<(u8, i64, String, String, Vec<u8>)>)
    ensures
        r is Some ==> postcard_fields(bytes@) == Some(((r->0).0, (r->0).1, (r->0).2@, (r->0).3@, (r->0).4@)),
        r is None ==> postcard_fields(bytes@) is None,
{
    postcard::from_bytes::<(u8, i64, String, String, Vec<u8>)>(bytes).ok()
}

impl Envelope {
    /// A GET request for the latest value of `topic`, of payload type `data_type`.
    pub fn get(timestamp: i64, topic: String, data_type: String) -> (r: Envelope)
        ensures
            r@ == (EnvelopeView {
                msg_type: MsgType::Get,
                timestamp,
                topic: topic@,
                data_type: data_type@,
                data: Seq::empty(),
            }),
            valid_envelope(r@),
    {
        let r = Envelope { msg_type: MsgType::Get, timestamp, topic, data_type, data: Vec::new() };
        assert(r.data@ =~= Seq::<u8>::empty());
        r
    }

    /// A PUB request that stores `data` under `topic`.
    pub fn publish(timestamp: i64, topic: String, data_type: String, data: Vec<u8>) -> (r: Envelope)
        ensures
            r@ == (EnvelopeView {
                msg_type: MsgType::Pub,
                timestamp,
                topic: topic@,
                data_type: data_type@,
                data: data@,
            }),
            valid_envelope(r@),
    {
        Envelope { msg_type: MsgType::Pub, timestamp, topic, data_type, data }
    }

    /// The wire bytes of this envelope; `decode` gives the envelope back
    /// from them, whatever its fields hold.
    pub fn encode(&self) -> (r: Vec<u8>)
        ensures
            r@ == encode_spec(self@),
            decode_spec(r@) == Ok::<EnvelopeView, DecodeError>(self@),
    {
        let tag: u8 = match self.msg_type {
            MsgType::Get => 0,
            MsgType::Pub => 1,
        };
        match postcard_encode(tag, self.timestamp, &self.topic, &self.data_type, &self.data) {
            Some(b) => b,
            None => Vec::new(),
        }
    }

    /// Reads an envelope from wire bytes; fails, without panicking, on
    /// truncated or malformed input.
    pub fn decode(bytes: &[u8]) -> (r: Result<Envelope, DecodeError>)
        ensures
            match r {
                Ok(e) => decode_spec(bytes@) == Ok::<EnvelopeView, DecodeError>(e@),
                Err(x) => decode_spec(bytes@) == Err::<EnvelopeView, DecodeError>(x),
            },
    {
        match postcard_decode(bytes) {
            None => Err(DecodeError::Malformed),
            Some((tag, timestamp, topic, data_type, data)) => {
                if tag == 0 {
                    Ok(Envelope { msg_type: MsgType::Get, timestamp, topic, data_type, data })
                } else if tag == 1 {
                    Ok(Envelope { msg_type: MsgType::Pub, timestamp, topic, data_type, data })
                } else {
                    Err(DecodeError::UnknownKind)
                }
            },
        }
    }
}

} // verus!
