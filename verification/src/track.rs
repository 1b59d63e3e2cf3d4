//! The playable unit and the playlist channel that carries it.

use vstd::prelude::*;
use crate::queue;

verus! {

/// A playable unit: a file name relative to the media directory.
#[derive(Debug)]
pub struct Track {
    pub name: String,
}

impl Clone for Track {
    fn clone(&self) -> (copy: Self)
        ensures
            copy == *self,
    {
        Track { name: self.name.clone() }
    }
}

/// The producing side of the playlist channel.
pub type Sender = queue::Sender<Track>;

/// The consuming side of the playlist channel.
pub type Receiver = queue::Receiver<Track>;

/// Opens an empty playlist channel for tracks.
pub fn channel() -> (ends: (Sender, Receiver))
    ensures
        ends.0.shares_with(&ends.1),
{
    queue::channel::<Track>()
}

} // verus!
