//! What the station answers to its clients: which route a request takes,
//! and what each route does to the playlist and reads from the registry.

use crate::queue::acquire;
use crate::queue::guarded;
use crate::queue::notify;
use crate::queue::PlaylistQueue;
use crate::queue::PlaylistState;
use crate::registry::CurrentTrack;
use crate::track::Sender;
use crate::track::Track;
use std::task::Waker;
use vstd::prelude::*;

verus! {

/// The request was carried out.
pub const OK: u16 = 200;

/// The request's body could not be understood.
pub const BAD_REQUEST: u16 = 400;

/// There is no such route, or no track has started yet.
pub const NOT_FOUND: u16 = 404;

/// The request methods that the station tells apart.
#[derive(Clone, Copy, Debug, PartialEq, Eq, Structural)]
pub enum Method {
    Get,
    Post,
    Other,
}

/// What a request asks for.
#[derive(Clone, Copy, Debug, PartialEq, Eq, Structural)]
pub enum Route {
    /// `GET /`: the live stream.
    Stream,
    /// `GET /tracks/current`: the track now playing.
    CurrentTrack,
    /// `POST /tracks/add`: a new track for the playlist.
    AddTrack,
    /// Anything else.
    NotFound,
}

/// The end of the playlist at which a track is inserted.
#[derive(Clone, Copy, Debug, PartialEq, Eq, Structural)]
pub enum Direction {
    Front,
    Back,
}

/// A well-formed request to add a track.
#[derive(Debug)]
pub struct AddTrackBody {
    pub track: Track,
    pub direction: Direction,
}

/// The answer to a query for the track now playing.
#[derive(Debug)]
pub struct TrackReply {
    /// `OK` with the track, or `NOT_FOUND` without one.
    pub status: u16,
    pub track: Option<Track>,
}

/// The route that a request with `method` and `path` takes.
pub open spec fn route_of(method: Method, path: Seq<char>) -> Route {
    if method == Method::Get && path == "/"@ {
        Route::Stream
    } else if method == Method::Get && path == "/tracks/current"@ {
        Route::CurrentTrack
    } else if method == Method::Post && path == "/tracks/add"@ {
        Route::AddTrack
    } else {
        Route::NotFound
    }
}

/// `str`'s `==`: whether two strings hold the same characters.
#[verifier::external_body]
fn same_text(left: &str, right: &str) -> (same: bool)
    ensures
        same == (left@ == right@),
{
    left == right
}

/// Dispatches a request by its method and its path.
pub fn route(method: Method, path: &str) -> (found: Route)
    ensures
        found == route_of(method, path@),
{
    match method {
        Method::Get => {
            if same_text(path, "/") {
                Route::Stream
            } else if same_text(path, "/tracks/current") {
                Route::CurrentTrack
            } else {
                Route::NotFound
            }
        },
        Method::Post => {
            if same_text(path, "/tracks/add") {
                Route::AddTrack
            } else {
                Route::NotFound
            }
        },
        Method::Other => Route::NotFound,
    }
}

/// Answers a query for the track now playing: the track with `OK`, or
/// `NOT_FOUND` while no track has started.
pub fn current_track(registry: &CurrentTrack) -> (reply: TrackReply)
    ensures
        reply.track == registry@,
        reply.status == if registry@ is Some {
            OK
        } else {
            NOT_FOUND
        },
{
    match registry.get() {
        Some(track) => TrackReply { status: OK, track: Some(track.clone()) },
        None => TrackReply { status: NOT_FOUND, track: None },
    }
}

/// The status that answers a request to add a track: `request` is the
/// parsed body, or nothing where the body could not be parsed.
pub open spec fn add_track_status(request: Option<AddTrackBody>) -> u16 {
    if request is Some {
        OK
    } else {
        BAD_REQUEST
    }
}

/// The playlist after a request to add a track: a body that could not be
/// parsed leaves it as it was.
pub open spec fn playlist_after_add(
    playlist: PlaylistState<Track>,
    request: Option<AddTrackBody>,
) -> PlaylistState<Track> {
    match request {
        Some(body) => match body.direction {
            Direction::Front => playlist.push_front(body.track),
            Direction::Back => playlist.push_back(body.track),
        },
        None => playlist,
    }
}

/// Carries out a request to add a track on the playlist itself, and hands
/// back the status and the parked consumer's handle for the caller to wake.
pub fn enqueue(queue: &mut PlaylistQueue<Track>, request: Option<AddTrackBody>) -> (done: (
    u16,
    Option<Waker>,
))
    ensures
        done.0 == add_track_status(request),
        final(queue)@ == playlist_after_add(old(queue)@, request),
        done.1 == if request is Some {
            old(queue)@.woken_by_push()
        } else {
            None
        },
{
    match request {
        Some(body) => {
            let wake = match body.direction {
                Direction::Front => queue.push_front(body.track),
                Direction::Back => queue.push_back(body.track),
            };
            (OK, wake)
        },
        None => (BAD_REQUEST, None),
    }
}

/// Answers a request to add a track through the producing handle: the
/// track goes to the end that the body names and the answer is `OK`, or the
/// body could not be parsed and the answer is `BAD_REQUEST`.
pub fn add_track(sender: &Sender, request: Option<AddTrackBody>) -> (status: u16)
    ensures
        status == add_track_status(request),
{
    let (status, parked) = {
        let mut guard = acquire(&sender.0);
        enqueue(guarded(&mut guard), request)
    };
    notify(parked);
    status
}

} // verus!
