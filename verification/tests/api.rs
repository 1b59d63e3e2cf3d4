use radio::api::add_track;
use radio::api::current_track;
use radio::api::enqueue;
use radio::api::route;
use radio::api::AddTrackBody;
use radio::api::Direction;
use radio::api::Method;
use radio::api::Route;
use radio::api::BAD_REQUEST;
use radio::api::NOT_FOUND;
use radio::api::OK;
use radio::queue::PlaylistQueue;
use radio::queue::Polled;
use radio::registry::CurrentTrack;
use radio::track;
use radio::track::Track;
use std::sync::Arc;
use std::task::Wake;
use std::task::Waker;

struct Idle;

impl Wake for Idle {
    fn wake(self: Arc<Self>) {}
}

fn idle_waker() -> Waker {
    Waker::from(Arc::new(Idle))
}

fn name(polled: Polled<Track>) -> String {
    match polled {
        Polled::Item(track) => track.name,
        Polled::Finished => panic!("the queue has ended"),
        Polled::Pending => panic!("nothing is ready"),
    }
}

fn body(name: &str, direction: Direction) -> Option<AddTrackBody> {
    Some(AddTrackBody { track: Track { name: name.to_string() }, direction })
}

#[test]
fn status_codes() {
    assert_eq!(OK, 200);
    assert_eq!(BAD_REQUEST, 400);
    assert_eq!(NOT_FOUND, 404);
}

#[test]
fn routes() {
    assert_eq!(route(Method::Get, "/"), Route::Stream);
    assert_eq!(route(Method::Get, "/tracks/current"), Route::CurrentTrack);
    assert_eq!(route(Method::Post, "/tracks/add"), Route::AddTrack);
}

#[test]
fn anything_else_is_not_found() {
    assert_eq!(route(Method::Post, "/"), Route::NotFound);
    assert_eq!(route(Method::Post, "/tracks/current"), Route::NotFound);
    assert_eq!(route(Method::Get, "/tracks/add"), Route::NotFound);
    assert_eq!(route(Method::Other, "/"), Route::NotFound);
    assert_eq!(route(Method::Other, "/tracks/add"), Route::NotFound);
    assert_eq!(route(Method::Get, ""), Route::NotFound);
    assert_eq!(route(Method::Get, "/tracks"), Route::NotFound);
    assert_eq!(route(Method::Get, "/tracks/current/"), Route::NotFound);
    assert_eq!(route(Method::Get, "/Tracks/Current"), Route::NotFound);
}

#[test]
fn no_current_track_before_the_first() {
    let registry = CurrentTrack::new();
    let reply = current_track(&registry);
    assert_eq!(reply.status, 404);
    assert!(reply.track.is_none());
}

#[test]
fn the_current_track_is_the_one_that_started_last() {
    let mut registry = CurrentTrack::new();
    registry.replace(Track { name: "a.mp3".to_string() });
    let reply = current_track(&registry);
    assert_eq!(reply.status, 200);
    assert_eq!(reply.track.unwrap().name, "a.mp3");
    registry.replace(Track { name: "b.mp3".to_string() });
    assert_eq!(current_track(&registry).track.unwrap().name, "b.mp3");
    assert_eq!(current_track(&registry).track.unwrap().name, "b.mp3");
}

#[test]
fn an_unparseable_body_leaves_the_playlist_as_it_was() {
    let mut queue = PlaylistQueue::new();
    enqueue(&mut queue, body("a.mp3", Direction::Back));
    assert!(matches!(queue.poll_next(idle_waker()), Polled::Item(_)));
    assert!(matches!(queue.poll_next(idle_waker()), Polled::Pending));
    enqueue(&mut queue, body("b.mp3", Direction::Back));

    let (status, wake) = enqueue(&mut queue, None);
    assert_eq!(status, 400);
    assert!(wake.is_none());
    assert_eq!(queue.len(), 1);
    assert!(!queue.is_closed());
    assert_eq!(name(queue.poll_next(idle_waker())), "b.mp3");
}

#[test]
fn an_unparseable_body_does_not_wake_the_consumer() {
    let mut queue: PlaylistQueue<Track> = PlaylistQueue::new();
    assert!(matches!(queue.poll_next(idle_waker()), Polled::Pending));
    let (status, wake) = enqueue(&mut queue, None);
    assert_eq!(status, 400);
    assert!(wake.is_none());
    let (status, wake) = enqueue(&mut queue, body("a.mp3", Direction::Front));
    assert_eq!(status, 200);
    assert!(wake.is_some());
}

#[test]
fn a_track_goes_to_the_end_that_the_body_names() {
    let mut queue = PlaylistQueue::new();
    assert_eq!(enqueue(&mut queue, body("a.mp3", Direction::Back)).0, 200);
    assert_eq!(enqueue(&mut queue, body("b.mp3", Direction::Front)).0, 200);
    assert_eq!(enqueue(&mut queue, body("c.mp3", Direction::Back)).0, 200);
    assert_eq!(name(queue.poll_next(idle_waker())), "b.mp3");
    assert_eq!(name(queue.poll_next(idle_waker())), "a.mp3");
    assert_eq!(name(queue.poll_next(idle_waker())), "c.mp3");
}

#[test]
fn adding_through_the_handle() {
    let (sender, mut receiver) = track::channel();
    assert_eq!(add_track(&sender, body("a.mp3", Direction::Back)), 200);
    assert_eq!(add_track(&sender, None), 400);
    assert_eq!(add_track(&sender, body("b.mp3", Direction::Front)), 200);
    assert_eq!(name(receiver.poll_next(idle_waker())), "b.mp3");
    assert_eq!(name(receiver.poll_next(idle_waker())), "a.mp3");
    assert!(matches!(receiver.poll_next(idle_waker()), Polled::Pending));
}

#[test]
fn adding_to_a_closed_playlist_is_accepted_and_dropped() {
    let (sender, mut receiver) = track::channel();
    receiver.close();
    assert_eq!(add_track(&sender, body("a.mp3", Direction::Back)), 200);
    assert!(matches!(receiver.poll_next(idle_waker()), Polled::Finished));
}
