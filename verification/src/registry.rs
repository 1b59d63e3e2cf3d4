//! The registry of the track now playing.

use crate::track::Track;
use vstd::prelude::*;

verus! {

/// Holds the track now playing: none before the first track starts, and
/// from then on always the one that started last.
pub struct CurrentTrack {
    track: Option<Track>,
}

impl View for CurrentTrack {
    type V = Option<Track>;

    closed spec fn view(&self) -> Option<Track> {
        self.track
    }
}

impl CurrentTrack {
    /// The registry before any track has played.
    pub fn new() -> (registry: Self)
        ensures
            registry@ is None,
    {
        CurrentTrack { track: None }
    }

    /// Records that `track` has started, and hands back the one before.
    pub fn replace(&mut self, track: Track) -> (previous: Option<Track>)
        ensures
            final(self)@ == Some(track),
            previous == old(self)@,
    {
        let previous = self.track.take();
        self.track = Some(track);
        previous
    }

    /// The track now playing, if one has started.
    pub fn get(&self) -> (playing: Option<&Track>)
        ensures
            match playing {
                Some(track) => self@ == Some(*track),
                None => self@ is None,
            },
    {
        self.track.as_ref()
    }
}

} // verus!
