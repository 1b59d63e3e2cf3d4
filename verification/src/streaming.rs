//! The streaming loop: takes one track after another from the playlist,
//! measures it, and publishes its chunks one per second. The loop decides
//! here; whoever drives it opens files, reads and waits, and reports back.

use bytes::BytesMut;
use crate::broadcast::Broadcast;
use crate::broadcast::BroadcastPoint;
use crate::buffer::buffered;
use crate::buffer::freeze;
use crate::registry::CurrentTrack;
use crate::timing::PlaybackTiming;
use crate::timing::TrackError;
use crate::track::Track;
use vstd::prelude::*;

verus! {

/// Where the loop stands.
#[derive(Debug)]
pub enum Phase {
    /// Between tracks: waiting for the playlist.
    Idle,
    /// A track was taken and recorded as current; its file is being opened
    /// and measured.
    Loading(Track),
    /// The track's chunks are being published at this timing.
    Streaming(Track, PlaybackTiming),
    /// The playlist has ended.
    Stopped,
}

/// What the driver reports.
#[derive(Debug)]
pub enum Event {
    /// The playlist handed out its next track.
    Dequeued(Track),
    /// The playlist is closed and drained.
    PlaylistEnded,
    /// The file was opened: its length in bytes and its duration in whole
    /// seconds.
    Measured { byte_len: usize, duration_secs: usize },
    /// The chunking stage produced the next chunk.
    Chunk(BytesMut),
    /// The chunking stage reached the end of the file.
    Exhausted,
    /// Opening, measuring or reading the file failed.
    Failed(TrackError),
}

/// What the driver is to do next.
#[derive(Debug)]
pub enum Action {
    /// Wait for the playlist's next track.
    AwaitTrack,
    /// Open the track's file and measure it.
    Measure(Track),
    /// Start a chunking stage at this timing and read its first chunk.
    Stream(PlaybackTiming),
    /// A chunk was published: let the pacing interval pass and the next
    /// chunk be read, both, before reporting again.
    Pace,
    /// Log that the track failed, then wait for the playlist's next track.
    Skip(Track, TrackError),
    /// End the loop.
    Stop,
    /// The event does not belong to the phase: nothing was changed.
    Ignored,
}

impl Phase {
    /// The phase that follows when `event` is reported in this one.
    pub open spec fn next(self, event: Event) -> Phase {
        match (self, event) {
            (Phase::Idle, Event::Dequeued(track)) => Phase::Loading(track),
            (Phase::Idle, Event::PlaylistEnded) => Phase::Stopped,
            (Phase::Loading(track), Event::Measured { byte_len, duration_secs }) => {
                if duration_secs == 0 {
                    Phase::Idle
                } else {
                    Phase::Streaming(
                        track,
                        PlaybackTiming {
                            bytes_per_second: (byte_len / duration_secs) as usize,
                            duration: duration_secs,
                        },
                    )
                }
            },
            (Phase::Loading(_), Event::Failed(_)) => Phase::Idle,
            (Phase::Streaming(_, _), Event::Exhausted) => Phase::Idle,
            (Phase::Streaming(_, _), Event::Failed(_)) => Phase::Idle,
            _ => self,
        }
    }

    /// What the driver is told when `event` is reported in this phase.
    pub open spec fn action(self, event: Event) -> Action {
        match (self, event) {
            (Phase::Idle, Event::Dequeued(track)) => Action::Measure(track),
            (Phase::Idle, Event::PlaylistEnded) => Action::Stop,
            (Phase::Loading(track), Event::Measured { byte_len, duration_secs }) => {
                if duration_secs == 0 {
                    Action::Skip(track, TrackError::ZeroDuration)
                } else {
                    Action::Stream(
                        PlaybackTiming {
                            bytes_per_second: (byte_len / duration_secs) as usize,
                            duration: duration_secs,
                        },
                    )
                }
            },
            (Phase::Loading(track), Event::Failed(error)) => Action::Skip(track, error),
            (Phase::Streaming(_, _), Event::Chunk(_)) => Action::Pace,
            (Phase::Streaming(_, _), Event::Exhausted) => Action::AwaitTrack,
            (Phase::Streaming(track, _), Event::Failed(error)) => Action::Skip(track, error),
            _ => Action::Ignored,
        }
    }

    /// The track now playing after `event`: a track taken from the playlist
    /// replaces the one before, and nothing else touches the registry.
    pub open spec fn registry_after(self, playing: Option<Track>, event: Event) -> Option<Track> {
        match (self, event) {
            (Phase::Idle, Event::Dequeued(track)) => Some(track),
            _ => playing,
        }
    }

    /// The broadcast point after `event`: a chunk of the track that is
    /// streaming is published, and nothing else touches the point.
    pub open spec fn broadcast_after(self, point: Broadcast, event: Event) -> Broadcast {
        match (self, event) {
            (Phase::Streaming(_, _), Event::Chunk(chunk)) => point.publish(buffered(chunk)),
            _ => point,
        }
    }

    /// The track that this phase is about, if it is about one.
    pub open spec fn track(self) -> Option<Track> {
        match self {
            Phase::Loading(track) => Some(track),
            Phase::Streaming(track, _) => Some(track),
            _ => None,
        }
    }
}

/// The loop's own state.
pub struct StreamingLoop {
    phase: Phase,
}

impl View for StreamingLoop {
    type V = Phase;

    closed spec fn view(&self) -> Phase {
        self.phase
    }
}

impl StreamingLoop {
    /// A loop between tracks. The driver begins by waiting for the
    /// playlist's first track.
    pub fn new() -> (fresh: Self)
        ensures
            fresh@ == Phase::Idle,
    {
        StreamingLoop { phase: Phase::Idle }
    }

    /// Where the loop stands.
    pub fn phase(&self) -> (phase: &Phase)
        ensures
            *phase == self@,
    {
        &self.phase
    }

    /// Takes the driver's report and says what to do next. A track taken
    /// from the playlist is recorded in `registry` before anything of it is
    /// read; a chunk of the streaming track is published at `point`; a
    /// failure of any kind ends the track and never the loop.
    pub fn step(
        &mut self,
        registry: &mut CurrentTrack,
        point: &mut BroadcastPoint,
        event: Event,
    ) -> (action: Action)
        ensures
            final(self)@ == old(self)@.next(event),
            action == old(self)@.action(event),
            final(registry)@ == old(self)@.registry_after(old(registry)@, event),
            final(point)@ == old(self)@.broadcast_after(old(point)@, event),
    {
        let mut phase = Phase::Idle;
        std::mem::swap(&mut self.phase, &mut phase);
        match (phase, event) {
            (Phase::Idle, Event::Dequeued(track)) => {
                registry.replace(track.clone());
                self.phase = Phase::Loading(track.clone());
                Action::Measure(track)
            },
            (Phase::Idle, Event::PlaylistEnded) => {
                self.phase = Phase::Stopped;
                Action::Stop
            },
            (Phase::Loading(track), Event::Measured { byte_len, duration_secs }) => {
                match PlaybackTiming::new(byte_len, duration_secs) {
                    Ok(timing) => {
                        self.phase = Phase::Streaming(track, timing);
                        Action::Stream(timing)
                    },
                    Err(error) => Action::Skip(track, error),
                }
            },
            (Phase::Loading(track), Event::Failed(error)) => Action::Skip(track, error),
            (Phase::Streaming(track, timing), Event::Chunk(chunk)) => {
                point.publish(freeze(chunk));
                self.phase = Phase::Streaming(track, timing);
                Action::Pace
            },
            (Phase::Streaming(_, _), Event::Exhausted) => Action::AwaitTrack,
            (Phase::Streaming(track, _), Event::Failed(error)) => Action::Skip(track, error),
            (phase, _) => {
                self.phase = phase;
                Action::Ignored
            },
        }
    }
}

/// The phase of a fresh loop after the driver has reported `events`.
pub open spec fn phase_after(events: Seq<Event>) -> Phase
    decreases events.len(),
{
    if events.len() == 0 {
        Phase::Idle
    } else {
        phase_after(events.drop_last()).next(events.last())
    }
}

/// The registry of a fresh station after the driver has reported `events`.
pub open spec fn playing_after(events: Seq<Event>) -> Option<Track>
    decreases events.len(),
{
    if events.len() == 0 {
        None
    } else {
        phase_after(events.drop_last()).registry_after(
            playing_after(events.drop_last()),
            events.last(),
        )
    }
}

/// A bad track never halts the station: whatever is reported, the loop
/// stops only when the playlist ends while it waits between tracks, and a
/// failure while a track is loading or streaming sends it back to waiting.
pub proof fn lemma_only_the_playlist_end_stops(phase: Phase, event: Event)
    requires
        !(phase is Stopped),
    ensures
        phase.next(event) is Stopped <==> phase is Idle && event is PlaylistEnded,
        phase.track() is Some && event is Failed ==> phase.next(event) is Idle && phase.action(
            event,
        ) is Skip,
{
}

/// The registry changes at a track transition and at no other time: a
/// track taken from the playlist becomes the current one, and every other
/// report leaves the current one in place.
pub proof fn lemma_current_track_changes_at_transitions(
    phase: Phase,
    playing: Option<Track>,
    event: Event,
)
    ensures
        phase is Idle && event is Dequeued ==> phase.registry_after(playing, event) == Some(
            event->Dequeued_0,
        ),
        !(phase is Idle && event is Dequeued) ==> phase.registry_after(playing, event) == playing,
{
}

/// The registry is ahead of the broadcast: in every state that a station
/// can reach, the track that is loading or streaming is the one that the
/// registry names, so no chunk is published for a track that the registry
/// does not name yet. Before the first track is taken the registry names
/// none.
pub proof fn lemma_registry_names_the_track(events: Seq<Event>)
    ensures
        phase_after(events).track() is Some ==> playing_after(events) == phase_after(
            events,
        ).track(),
        (forall|i: int| 0 <= i < events.len() ==> !(#[trigger] events[i] is Dequeued))
            ==> playing_after(events) is None,
    decreases events.len(),
{
    if events.len() > 0 {
        let earlier = events.drop_last();
        lemma_registry_names_the_track(earlier);
        if forall|i: int| 0 <= i < events.len() ==> !(#[trigger] events[i] is Dequeued) {
            assert forall|i: int| 0 <= i < earlier.len() implies !(#[trigger] earlier[i]
                is Dequeued) by {
                assert(earlier[i] == events[i]);
            }
            assert(!(events[events.len() - 1] is Dequeued));
        }
    }
}

/// Chunks reach the broadcast point only from the track that is streaming:
/// in any other phase, and on any other report, the point keeps its chunk.
pub proof fn lemma_only_streaming_publishes(phase: Phase, point: Broadcast, event: Event)
    ensures
        phase is Streaming && event is Chunk ==> phase.broadcast_after(point, event)
            == point.publish(buffered(event->Chunk_0)),
        !(phase is Streaming && event is Chunk) ==> phase.broadcast_after(point, event) == point,
{
}

} // verus!
