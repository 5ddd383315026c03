//! The hand-off point between the network and the consumer: a queue that
//! holds at most one message and always keeps the newest.

use bytes::Bytes;
use vstd::prelude::*;

verus! {

/// A queue of capacity one. A message that arrives while another is still
/// pending takes its place, so the network side never waits and the consumer
/// never sees a stale frame when a newer one is there.
pub struct InboundQueue {
    slot: Option<Bytes>,
}

impl View for InboundQueue {
    type V = Option<Bytes>;

    /// The pending message, if there is one.
    closed spec fn view(&self) -> Option<Bytes> {
        self.slot
    }
}

/// The queue after a message has been offered to it: the message is pending,
/// whatever was pending before.
pub open spec fn offered(pending: Option<Bytes>, message: Bytes) -> Option<Bytes> {
    Some(message)
}

/// The message that an offer pushes out of the queue.
pub open spec fn displaced(pending: Option<Bytes>, message: Bytes) -> Option<Bytes> {
    pending
}

/// The queue after a series of offers with no take in between.
pub open spec fn offered_all(pending: Option<Bytes>, messages: Seq<Bytes>) -> Option<Bytes>
    decreases messages.len(),
{
    if messages.len() == 0 {
        pending
    } else {
        offered_all(offered(pending, messages[0]), messages.drop_first())
    }
}

/// However many messages arrive before the consumer takes one, exactly one
/// is pending afterwards, and it is the last that arrived.
pub proof fn lemma_newest_wins(pending: Option<Bytes>, messages: Seq<Bytes>)
    requires
        messages.len() > 0,
    ensures
        offered_all(pending, messages) == Some(messages.last()),
    decreases messages.len(),
{
    if messages.len() > 1 {
        let rest = messages.drop_first();
        lemma_newest_wins(offered(pending, messages[0]), rest);
        assert(rest.last() == messages.last());
    } else {
        assert(offered_all(offered(pending, messages[0]), messages.drop_first()) == offered(
            pending,
            messages[0],
        ));
    }
}

/// Two frames sent before the consumer takes the first: the consumer sees
/// the second and nothing else.
pub proof fn lemma_two_offers_one_frame(first: Bytes, second: Bytes)
    ensures
        offered(offered(None, first), second) == Some(second),
        displaced(offered(None, first), second) == Some(first),
{
}

impl InboundQueue {
    /// The number of messages the queue can hold.
    pub const CAPACITY: usize = 1;

    /// An empty queue.
    pub fn new() -> (queue: InboundQueue)
        ensures
            queue@ is None,
    {
        InboundQueue { slot: None }
    }

    /// Offers a message. It becomes the pending one; the message it pushes
    /// out, if any, is handed back.
    pub fn offer(&mut self, message: Bytes) -> (dropped: Option<Bytes>)
        ensures
            final(self)@ == offered(old(self)@, message),
            dropped == displaced(old(self)@, message),
    {
        let dropped = self.slot.take();
        self.slot = Some(message);
        dropped
    }

    /// Takes the pending message, leaving the queue empty.
    pub fn take(&mut self) -> (message: Option<Bytes>)
        ensures
            message == old(self)@,
            final(self)@ is None,
    {
        self.slot.take()
    }

    /// The number of pending messages: none or one.
    pub fn len(&self) -> (n: usize)
        ensures
            n == if self@ is Some { 1usize } else { 0usize },
            n <= Self::CAPACITY,
    {
        if self.slot.is_some() {
            1
        } else {
            0
        }
    }

    pub fn is_empty(&self) -> (empty: bool)
        ensures
            empty == (self@ is None),
    {
        self.slot.is_none()
    }
}

} // verus!
