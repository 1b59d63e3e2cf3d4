//! A single-station audio broadcast: a playlist queue that producers fill at
//! either end, a chunking stage that cuts a track into one-second slices, a
//! single-slot broadcast point, the loop that drives them, and the registry
//! of the track now playing.

pub mod api;
pub mod broadcast;
pub mod buffer;
pub mod codec;
pub mod queue;
pub mod registry;
pub mod streaming;
pub mod timing;
pub mod track;
