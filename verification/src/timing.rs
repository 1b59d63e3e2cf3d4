//! Playback timing: how many bytes of a track make one second.

use crate::codec::Chunking;
use crate::codec::ChunksCodec;
use vstd::prelude::*;

verus! {

/// The seconds between two chunks: one chunk stands for one second of audio.
pub const PACING_SECONDS: u64 = 1;

/// Why a track could not be played. None of these stops the station: the
/// track is skipped and the next one is taken.
#[derive(Clone, Copy, Debug, PartialEq, Eq, Structural)]
pub enum TrackError {
    /// The file could not be opened or its length could not be read.
    Unreadable,
    /// The audio metadata could not be read.
    NoMetadata,
    /// The track lasts less than one second, so no rate can be derived.
    ZeroDuration,
    /// Reading the file failed after streaming had begun.
    ReadFailed,
}

/// The rate and the length at which one track is streamed.
#[derive(Clone, Copy, Debug, PartialEq, Eq, Structural)]
pub struct PlaybackTiming {
    /// The size of a regular chunk: the file's length divided by its
    /// duration, rounded down.
    pub bytes_per_second: usize,
    /// The whole seconds that the track lasts, at least one.
    pub duration: usize,
}

impl PlaybackTiming {
    /// The timing of a file of `byte_len` bytes that plays for
    /// `duration_secs` whole seconds. A duration of zero is refused.
    pub fn new(byte_len: usize, duration_secs: usize) -> (timing: Result<Self, TrackError>)
        ensures
            duration_secs == 0 ==> timing == Err::<Self, TrackError>(TrackError::ZeroDuration),
            duration_secs > 0 ==> timing == Ok::<Self, TrackError>(
                (PlaybackTiming {
                    bytes_per_second: (byte_len / duration_secs) as usize,
                    duration: duration_secs,
                }),
            ),
    {
        if duration_secs == 0 {
            return Err(TrackError::ZeroDuration);
        }
        Ok(PlaybackTiming { bytes_per_second: byte_len / duration_secs, duration: duration_secs })
    }

    /// A chunking stage at this timing, before its first chunk.
    pub fn codec(&self) -> (codec: ChunksCodec)
        ensures
            codec@ == Chunking::start(self.bytes_per_second as nat, self.duration as nat),
    {
        ChunksCodec::new(self.bytes_per_second, self.duration)
    }
}

} // verus!
