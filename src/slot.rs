use vstd::prelude::*;

verus! {

/// A value held in the slot: the timestamp of the reply that carried it, and
/// its serialized payload.
#[derive(Debug)]
pub struct Cached {
    pub timestamp: i64,
    pub data: Vec<u8>,
}

/// The most recent accepted value of a subscription, with its timestamp.
/// It starts empty and, once populated, only ever takes newer values.
#[derive(Debug)]
pub struct CachedSlot {
    value: Option<Cached>,
}

/// The contents of a slot: nothing yet, or a timestamp and a payload.
pub type SlotView = Option<(i64, Seq<u8>)>;

impl View for CachedSlot {
    type V = SlotView;

    closed spec fn view(&self) -> SlotView {
        match self.value {
            None => None,
            Some(c) => Some((c.timestamp, c.data@)),
        }
    }
}

/// Whether a reply stamped `timestamp` is newer than what the slot holds.
pub open spec fn is_newer(s: SlotView, timestamp: i64) -> bool {
    match s {
        None => true,
        Some(c) => timestamp > c.0,
    }
}

/// The staleness filter: the slot after a reply `(timestamp, data)` is offered.
pub open spec fn offer_spec(s: SlotView, timestamp: i64, data: Seq<u8>) -> SlotView {
    if is_newer(s, timestamp) {
        Some((timestamp, data))
    } else {
        s
    }
}

/// The slot after the replies of `replies` are offered, first to last.
pub open spec fn offer_all(s: SlotView, replies: Seq<(i64, Seq<u8>)>) -> SlotView
    decreases replies.len(),
{
    if replies.len() == 0 {
        s
    } else {
        offer_all(offer_spec(s, replies[0].0, replies[0].1), replies.drop_first())
    }
}

/// `b` holds a value no older than `a` does (an empty slot is oldest).
pub open spec fn not_older(a: SlotView, b: SlotView) -> bool {
    match a {
        None => true,
        Some(x) => b matches Some(y) && x.0 <= y.0,
    }
}

impl CachedSlot {
    /// An empty slot.
    pub fn new() -> (r: CachedSlot)
        ensures
            r@ is None,
    {
        CachedSlot { value: None }
    }

    /// Offers a reply; it is taken if and only if it is strictly newer than
    /// the value held, and the result says whether it was.
    pub fn offer(&mut self, timestamp: i64, data: Vec<u8>) -> (accepted: bool)
        ensures
            accepted == is_newer(old(self)@, timestamp),
            final(self)@ == offer_spec(old(self)@, timestamp, data@),
            not_older(old(self)@, final(self)@),
    {
        let newer = match &self.value {
            None => true,
            Some(c) => timestamp > c.timestamp,
        };
        if newer {
            self.value = Some(Cached { timestamp, data });
        }
        newer
    }

    /// The timestamp of the value held, if any.
    pub fn timestamp(&self) -> (r: Option<i64>)
        ensures
            r == (match self@ {
                None => None,
                Some(c) => Some(c.0),
            }),
    {
        match &self.value {
            None => None,
            Some(c) => Some(c.timestamp),
        }
    }

    /// A copy of the value held; nothing while no reply has been accepted.
    pub fn read(&self) -> (r: Option<Cached>)
        ensures
            match self@ {
                None => r is None,
                Some(c) => r matches Some(v) && v.timestamp == c.0 && v.data@ == c.1,
            },
    {
        match &self.value {
            None => None,
            Some(c) => {
                let data = c.data.clone();
                assert(data@ =~= c.data@);
                Some(Cached { timestamp: c.timestamp, data })
            },
        }
    }
}

/// Whatever replies arrive, in whatever order, the slot's timestamp never
/// decreases: the slot after any further replies is no older than before.
pub proof fn lemma_timestamp_never_decreases(s: SlotView, replies: Seq<(i64, Seq<u8>)>)
    ensures
        not_older(s, offer_all(s, replies)),
    decreases replies.len(),
{
    if replies.len() > 0 {
        let t = offer_spec(s, replies[0].0, replies[0].1);
        lemma_timestamp_never_decreases(t, replies.drop_first());
    }
}

/// A reply stamped no later than the value held leaves no trace: the slot
/// after it and any further replies is the slot after those replies alone.
pub proof fn lemma_stale_reply_ignored(
    s: SlotView,
    timestamp: i64,
    data: Seq<u8>,
    later: Seq<(i64, Seq<u8>)>,
)
    requires
        s matches Some(c) && timestamp <= c.0,
    ensures
        offer_spec(s, timestamp, data) == s,
        offer_all(s, seq![(timestamp, data)] + later) == offer_all(s, later),
{
    let all = seq![(timestamp, data)] + later;
    assert(all.drop_first() =~= later);
}

} // verus!
