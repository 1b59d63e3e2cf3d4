//! The broadcast point: one slot that holds the latest chunk, and the
//! subscriptions that read it. A subscriber that falls behind sees only the
//! latest chunk: what was published in between is gone.

use bytes::Bytes;
use crate::buffer::frozen;
use crate::buffer::no_bytes;
use crate::buffer::share_bytes;
use vstd::prelude::*;

verus! {

/// What a broadcast point holds, as plain mathematics: the bytes of the
/// chunk published last, and the number of that publication, which starts
/// again at zero after `u64::MAX`.
pub struct Broadcast {
    pub latest: Seq<u8>,
    pub version: int,
}

impl Broadcast {
    /// The point before anything is published: an empty chunk.
    pub open spec fn initial() -> Self {
        Broadcast { latest: Seq::empty(), version: 0 }
    }

    /// The publication number is one that the point can hold.
    pub open spec fn valid(self) -> bool {
        0 <= self.version < 0x1_0000_0000_0000_0000
    }

    /// The point after `chunk` is published.
    pub open spec fn publish(self, chunk: Seq<u8>) -> Self {
        Broadcast { latest: chunk, version: (self.version + 1) % 0x1_0000_0000_0000_0000 }
    }

    /// The point after each chunk of `chunks` is published in turn.
    pub open spec fn publish_all(self, chunks: Seq<Seq<u8>>) -> Self
        decreases chunks.len(),
    {
        if chunks.len() == 0 {
            self
        } else {
            self.publish_all(chunks.drop_last()).publish(chunks.last())
        }
    }

    /// What a subscriber that last saw publication `seen` gets when it
    /// polls: the latest chunk, unless that is the one it saw.
    pub open spec fn observed(self, seen: Option<int>) -> Option<Seq<u8>> {
        if seen == Some(self.version) {
            None
        } else {
            Some(self.latest)
        }
    }
}

/// The single slot that every listener reads.
pub struct BroadcastPoint {
    slot: Bytes,
    version: u64,
}

impl View for BroadcastPoint {
    type V = Broadcast;

    closed spec fn view(&self) -> Broadcast {
        Broadcast { latest: frozen(self.slot), version: self.version as int }
    }
}

/// One listener's place in the broadcast: the publication it saw last, or
/// none if it has not polled yet.
pub struct Subscription {
    seen: Option<u64>,
}

impl View for Subscription {
    type V = Option<int>;

    closed spec fn view(&self) -> Option<int> {
        match self.seen {
            Some(version) => Some(version as int),
            None => None,
        }
    }
}

impl BroadcastPoint {
    /// A point that holds the empty chunk.
    pub fn new() -> (point: Self)
        ensures
            point@ == Broadcast::initial(),
            point@.valid(),
    {
        BroadcastPoint { slot: no_bytes(), version: 0 }
    }

    /// Overwrites the slot with `chunk`. There is no backpressure: whoever
    /// has not read the chunk before will never see it.
    pub fn publish(&mut self, chunk: Bytes)
        ensures
            final(self)@ == old(self)@.publish(frozen(chunk)),
            final(self)@.valid(),
    {
        self.slot = chunk;
        self.version = self.version.wrapping_add(1);
    }

    /// A new subscription, which has seen nothing yet: its first poll
    /// yields whatever the slot holds then.
    pub fn subscribe(&self) -> (subscription: Subscription)
        ensures
            subscription@ is None,
    {
        Subscription { seen: None }
    }

    /// The latest chunk, if `subscription` has not seen it yet; the
    /// subscription then counts it as seen.
    pub fn poll(&self, subscription: &mut Subscription) -> (chunk: Option<Bytes>)
        ensures
            match chunk {
                Some(bytes) => self@.observed(old(subscription)@) == Some(frozen(bytes)),
                None => self@.observed(old(subscription)@) is None,
            },
            final(subscription)@ == Some(self@.version),
    {
        let unseen = match subscription.seen {
            Some(version) => version != self.version,
            None => true,
        };
        if unseen {
            subscription.seen = Some(self.version);
            Some(share_bytes(&self.slot))
        } else {
            None
        }
    }
}

/// After a run of publications the slot holds the last of them, and the
/// publication number has moved on by their count, starting again at zero
/// after `u64::MAX`.
proof fn lemma_publish_all(point: Broadcast, chunks: Seq<Seq<u8>>)
    requires
        point.valid(),
    ensures
        point.publish_all(chunks).version == (point.version + chunks.len())
            % 0x1_0000_0000_0000_0000,
        chunks.len() > 0 ==> point.publish_all(chunks).latest == chunks.last(),
        chunks.len() == 0 ==> point.publish_all(chunks) == point,
    decreases chunks.len(),
{
    if chunks.len() > 0 {
        lemma_publish_all(point, chunks.drop_last());
    }
}

/// Whoever subscribes after some chunks were published, and polls before
/// the next one is, gets the chunk published last and no earlier one.
pub proof fn lemma_late_subscriber_sees_latest(point: Broadcast, published: Seq<Seq<u8>>)
    requires
        point.valid(),
        published.len() > 0,
    ensures
        point.publish_all(published).observed(None) == Some(published.last()),
{
    lemma_publish_all(point, published);
}

/// Whoever subscribes before anything was published gets the empty chunk.
pub proof fn lemma_first_subscriber_sees_empty()
    ensures
        Broadcast::initial().observed(None) == Some(Seq::<u8>::empty()),
{
}

/// A subscriber that has seen the slot and then misses a run of
/// publications gets, on its next poll, the last chunk of the run and none
/// of those before it; polling once more yields nothing until the next
/// publication. The run is shorter than the range of the publication
/// number.
pub proof fn lemma_slow_subscriber_skips_to_latest(point: Broadcast, missed: Seq<Seq<u8>>)
    requires
        point.valid(),
        0 < missed.len() < 0x1_0000_0000_0000_0000,
    ensures
        point.publish_all(missed).observed(Some(point.version)) == Some(missed.last()),
        point.publish_all(missed).observed(Some(point.publish_all(missed).version)) is None,
{
    lemma_publish_all(point, missed);
}

} // verus!
