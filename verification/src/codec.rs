//! The chunking stage: cuts the buffered bytes of a track into slices of one
//! second each, the last of which takes whatever remains.

use bytes::BytesMut;
use crate::buffer::buffer_len;
use crate::buffer::buffered;
use crate::buffer::split;
use crate::buffer::split_to;
use vstd::prelude::*;

verus! {

/// The position of a chunking stage, as plain mathematics: the size of a
/// regular chunk, the number of chunks that the track is cut into, and the
/// one-based number of the chunk that comes next.
pub struct Chunking {
    pub bps: nat,
    pub duration: nat,
    pub current: nat,
}

impl Chunking {
    /// The stage before its first chunk.
    pub open spec fn start(bps: nat, duration: nat) -> Self {
        Chunking { bps, duration, current: 1 }
    }

    /// A regular chunk is cut: the last chunk is still ahead, and more than
    /// one chunk's worth of bytes is buffered.
    pub open spec fn cuts(self, pending: Seq<u8>) -> bool {
        self.current < self.duration && self.bps < pending.len()
    }

    /// The last chunk is due and takes every buffered byte.
    pub open spec fn flushes(self, pending: Seq<u8>) -> bool {
        self.current == self.duration && pending.len() > 0
    }

    /// The chunk that one pull yields from `pending`, if one is ready.
    pub open spec fn emitted(self, pending: Seq<u8>) -> Option<Seq<u8>> {
        if self.cuts(pending) {
            Some(pending.subrange(0, self.bps as int))
        } else if self.flushes(pending) {
            Some(pending)
        } else {
            None
        }
    }

    /// What stays buffered after one pull.
    pub open spec fn retained(self, pending: Seq<u8>) -> Seq<u8> {
        if self.cuts(pending) {
            pending.subrange(self.bps as int, pending.len() as int)
        } else if self.flushes(pending) {
            Seq::empty()
        } else {
            pending
        }
    }

    /// The position after one pull: a regular chunk advances the counter.
    pub open spec fn after(self, pending: Seq<u8>) -> Self {
        if self.cuts(pending) {
            Chunking { bps: self.bps, duration: self.duration, current: self.current + 1 }
        } else {
            self
        }
    }

    /// Every chunk that repeated pulls yield from `pending`, in order, until
    /// no chunk is ready.
    pub open spec fn drain(self, pending: Seq<u8>) -> Seq<Seq<u8>>
        decreases self.duration - self.current + pending.len(),
    {
        match self.emitted(pending) {
            Some(chunk) => seq![chunk] + self.after(pending).drain(self.retained(pending)),
            None => Seq::empty(),
        }
    }

    /// What is still buffered when no chunk is ready any more.
    pub open spec fn residue(self, pending: Seq<u8>) -> Seq<u8>
        decreases self.duration - self.current + pending.len(),
    {
        match self.emitted(pending) {
            Some(_) => self.after(pending).residue(self.retained(pending)),
            None => pending,
        }
    }

    /// The position when no chunk is ready any more.
    pub open spec fn settled(self, pending: Seq<u8>) -> Self
        decreases self.duration - self.current + pending.len(),
    {
        match self.emitted(pending) {
            Some(_) => self.after(pending).settled(self.retained(pending)),
            None => self,
        }
    }
}

/// The bytes of each buffer of `chunks`, in order.
pub open spec fn buffered_each(chunks: Seq<BytesMut>) -> Seq<Seq<u8>> {
    Seq::new(chunks.len(), |i: int| buffered(chunks[i]))
}

/// Cuts a track's bytes into `duration` chunks of `bps` bytes, the last of
/// which also carries the remainder.
pub struct ChunksCodec {
    bps: usize,
    duration: usize,
    current: usize,
}

impl View for ChunksCodec {
    type V = Chunking;

    closed spec fn view(&self) -> Chunking {
        Chunking { bps: self.bps as nat, duration: self.duration as nat, current: self.current as nat }
    }
}

impl ChunksCodec {
    /// A stage for a track of `duration` seconds at `bps` bytes per second,
    /// positioned before its first chunk.
    pub fn new(bps: usize, duration: usize) -> (codec: Self)
        ensures
            codec@ == Chunking::start(bps as nat, duration as nat),
    {
        Self { bps, duration, current: 1usize }
    }

    /// One pull. While the last chunk is still ahead and `buf` holds more
    /// than `bps` bytes, the first `bps` bytes leave as the next chunk. When
    /// the last chunk is due, everything in `buf` leaves as that chunk; the
    /// counter stays there, so bytes that come later leave with the next
    /// pull. Otherwise nothing is ready and `buf` is left as it is.
    pub fn decode(&mut self, buf: &mut BytesMut) -> (chunk: Option<BytesMut>)
        ensures
            match chunk {
                Some(bytes) => old(self)@.emitted(buffered(*old(buf))) == Some(buffered(bytes)),
                None => old(self)@.emitted(buffered(*old(buf))) is None,
            },
            final(self)@ == old(self)@.after(buffered(*old(buf))),
            buffered(*final(buf)) == old(self)@.retained(buffered(*old(buf))),
    {
        let pending = buffer_len(buf);
        if self.current < self.duration && self.bps < pending {
            self.current += 1;
            Some(split_to(buf, self.bps))
        } else if self.current == self.duration && pending > 0 {
            Some(split(buf))
        } else {
            None
        }
    }

    /// Pulls until no chunk is ready and returns the chunks in order; `buf`
    /// keeps the bytes that belong to a chunk not yet complete.
    pub fn decode_all(&mut self, buf: &mut BytesMut) -> (chunks: Vec<BytesMut>)
        ensures
            buffered_each(chunks@) == old(self)@.drain(buffered(*old(buf))),
            buffered(*final(buf)) == old(self)@.residue(buffered(*old(buf))),
            final(self)@ == old(self)@.settled(buffered(*old(buf))),
    {
        let ghost first = self@;
        let ghost given = buffered(*buf);
        let mut chunks: Vec<BytesMut> = Vec::new();
        loop
            invariant
                first.drain(given) == buffered_each(chunks@) + self@.drain(buffered(*buf)),
                first.residue(given) == self@.residue(buffered(*buf)),
                first.settled(given) == self@.settled(buffered(*buf)),
            ensures
                first.drain(given) == buffered_each(chunks@),
                first.residue(given) == buffered(*buf),
                first.settled(given) == self@,
            decreases self@.duration - self@.current + buffered(*buf).len(),
        {
            let ghost before = buffered_each(chunks@);
            let ghost stage = self@;
            let ghost pending = buffered(*buf);
            match self.decode(buf) {
                Some(chunk) => {
                    chunks.push(chunk);
                    assert(buffered_each(chunks@) == before + seq![buffered(chunk)]);
                    assert(before + (seq![buffered(chunk)] + self@.drain(buffered(*buf)))
                        == buffered_each(chunks@) + self@.drain(buffered(*buf)));
                },
                None => {
                    assert(stage.drain(pending) == Seq::<Seq<u8>>::empty());
                    assert(before + Seq::<Seq<u8>>::empty() == before);
                    break ;
                },
            }
        }
        chunks
    }
}

/// Chunking neither loses nor repeats a byte, whatever the rate and the
/// duration: the chunks in order, followed by what stays buffered, are the
/// bytes that were there.
pub proof fn lemma_chunks_conserve_bytes(stage: Chunking, pending: Seq<u8>)
    ensures
        stage.drain(pending).flatten() + stage.residue(pending) == pending,
    decreases stage.duration - stage.current + pending.len(),
{
    match stage.emitted(pending) {
        Some(chunk) => {
            let rest = stage.after(pending).drain(stage.retained(pending));
            lemma_chunks_conserve_bytes(stage.after(pending), stage.retained(pending));
            assert(chunk + stage.retained(pending) == pending);
            assert(stage.drain(pending).drop_first() == rest);
            assert(stage.drain(pending).flatten() == chunk + rest.flatten());
            assert(chunk + rest.flatten() + stage.residue(pending) == chunk + (rest.flatten()
                + stage.residue(pending)));
        },
        None => {
            assert(stage.drain(pending).flatten() == Seq::<u8>::empty());
            assert(Seq::<u8>::empty() + pending == pending);
        },
    }
}

/// From any position up to the last chunk, a buffer that holds at least the
/// regular size for each chunk still due is cut into exactly those chunks:
/// each but the last of the regular size, the last with all that is left.
proof fn lemma_drain_from(stage: Chunking, pending: Seq<u8>)
    requires
        1 <= stage.current <= stage.duration,
        pending.len() > 0,
        pending.len() >= (stage.duration - stage.current + 1) * stage.bps,
    ensures
        stage.drain(pending).len() == stage.duration - stage.current + 1,
        stage.residue(pending) == Seq::<u8>::empty(),
        forall|k: int|
            0 <= k < stage.duration - stage.current ==> #[trigger] stage.drain(pending)[k]
                == pending.subrange(k * stage.bps, k * stage.bps + stage.bps),
        stage.drain(pending)[stage.duration - stage.current] == pending.subrange(
            (stage.duration - stage.current) * stage.bps,
            pending.len() as int,
        ),
    decreases stage.duration - stage.current,
{
    let bps = stage.bps as int;
    let due = stage.duration - stage.current;
    if stage.current < stage.duration {
        assert((due + 1) * bps == due * bps + bps && due * bps >= bps) by (nonlinear_arith)
            requires
                due >= 1,
                bps >= 0,
        ;
        assert(stage.cuts(pending));
        let next = stage.after(pending);
        let rest = stage.retained(pending);
        assert((next.duration - next.current + 1) * next.bps == due * bps);
        lemma_drain_from(next, rest);
        let chunks = stage.drain(pending);
        assert(chunks == seq![pending.subrange(0, bps)] + next.drain(rest));
        assert((due - 1) * bps + bps == due * bps && (due - 1) * bps >= 0) by (nonlinear_arith)
            requires
                due >= 1,
                bps >= 0,
        ;
        assert forall|k: int| 0 <= k < due implies #[trigger] chunks[k] == pending.subrange(
            k * bps,
            k * bps + bps,
        ) by {
            if k > 0 {
                assert((k - 1) * bps + bps == k * bps && (k - 1) * bps >= 0) by (nonlinear_arith)
                    requires
                        k >= 1,
                        bps >= 0,
                ;
                assert((k - 1) * bps + bps <= (due - 1) * bps) by (nonlinear_arith)
                    requires
                        1 <= k < due,
                        bps >= 0,
                ;
                assert(chunks[k] == next.drain(rest)[k - 1]);
                assert(next.drain(rest)[k - 1] == rest.subrange(
                    (k - 1) * bps,
                    (k - 1) * bps + bps,
                ));
                assert(rest.subrange((k - 1) * bps, (k - 1) * bps + bps) == pending.subrange(
                    k * bps,
                    k * bps + bps,
                ));
            } else {
                assert(chunks[0] == pending.subrange(0, bps));
                assert(k * bps == 0) by (nonlinear_arith)
                    requires
                        k == 0,
                ;
            }
        }
        assert(chunks[due] == next.drain(rest)[due - 1]);
        assert(rest.subrange((due - 1) * bps, rest.len() as int) == pending.subrange(
            due * bps,
            pending.len() as int,
        ));
    } else {
        assert(stage.flushes(pending));
        assert(due * bps == 0);
        let done = stage.after(pending);
        assert(done.drain(Seq::<u8>::empty()) == Seq::<Seq<u8>>::empty());
        assert(done.residue(Seq::<u8>::empty()) == Seq::<u8>::empty());
        assert(pending.subrange(0, pending.len() as int) == pending);
    }
}

/// A track of at least one byte, cut at the rate that its length and its
/// duration give, yields exactly `duration` chunks. Each but the last holds
/// `len / duration` bytes, the last holds those and the remainder of the
/// division, and the chunks in order are the track byte for byte.
pub proof fn lemma_chunks_rebuild_track(source: Seq<u8>, duration: nat)
    requires
        duration > 0,
        source.len() > 0,
    ensures
        ({
            let bps = source.len() / duration;
            let chunks = Chunking::start(bps, duration).drain(source);
            &&& chunks.len() == duration
            &&& chunks.flatten() == source
            &&& forall|k: int|
                0 <= k < duration - 1 ==> #[trigger] chunks[k] == source.subrange(
                    k * bps,
                    k * bps + bps,
                )
            &&& chunks[duration - 1] == source.subrange(
                (duration - 1) * bps,
                source.len() as int,
            )
            &&& chunks[duration - 1].len() == bps + source.len() % duration
        }),
{
    let len = source.len() as int;
    let bps = source.len() / duration;
    let stage = Chunking::start(bps, duration);
    vstd::arithmetic::div_mod::lemma_fundamental_div_mod(len, duration as int);
    assert(duration * bps == (duration - 1) * bps + bps && (duration - 1) * bps >= 0)
        by (nonlinear_arith)
        requires
            duration >= 1,
            bps >= 0,
    ;
    lemma_drain_from(stage, source);
    lemma_chunks_conserve_bytes(stage, source);
    assert(stage.drain(source).flatten() + Seq::<u8>::empty() == stage.drain(source).flatten());
}

} // verus!
