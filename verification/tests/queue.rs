use radio::queue::channel;
use radio::queue::PlaylistQueue;
use radio::queue::Polled;
use radio::track;
use radio::track::Track;
use std::sync::atomic::AtomicUsize;
use std::sync::atomic::Ordering;
use std::sync::Arc;
use std::task::Wake;
use std::task::Waker;

struct Counter(AtomicUsize);

impl Wake for Counter {
    fn wake(self: Arc<Self>) {
        self.0.fetch_add(1, Ordering::SeqCst);
    }
}

fn counting_waker() -> (Arc<Counter>, Waker) {
    let counter = Arc::new(Counter(AtomicUsize::new(0)));
    (counter.clone(), Waker::from(counter))
}

fn idle_waker() -> Waker {
    counting_waker().1
}

fn item<T>(polled: Polled<T>) -> T {
    match polled {
        Polled::Item(value) => value,
        Polled::Finished => panic!("the queue has ended"),
        Polled::Pending => panic!("nothing is ready"),
    }
}

fn track(name: &str) -> Track {
    Track { name: name.to_string() }
}

#[test]
fn front_inserts_come_first_newest_first() {
    let mut queue = PlaylistQueue::new();
    queue.push_front("B");
    queue.push_front("A");
    queue.push_back("C");
    assert_eq!(queue.len(), 3);
    assert_eq!(item(queue.poll_next(idle_waker())), "A");
    assert_eq!(item(queue.poll_next(idle_waker())), "B");
    assert_eq!(item(queue.poll_next(idle_waker())), "C");
    assert_eq!(queue.len(), 0);
}

#[test]
fn back_inserts_keep_their_order() {
    let mut queue = PlaylistQueue::new();
    for n in 0..5u32 {
        queue.push_back(n);
    }
    for n in 0..5u32 {
        assert_eq!(item(queue.poll_next(idle_waker())), n);
    }
}

#[test]
fn pushes_and_takes_interleave() {
    let mut queue = PlaylistQueue::new();
    queue.push_back(1);
    queue.push_back(2);
    assert_eq!(item(queue.poll_next(idle_waker())), 1);
    queue.push_front(9);
    queue.push_back(3);
    assert_eq!(item(queue.poll_next(idle_waker())), 9);
    assert_eq!(item(queue.poll_next(idle_waker())), 2);
    assert_eq!(item(queue.poll_next(idle_waker())), 3);
    assert!(matches!(queue.poll_next(idle_waker()), Polled::Pending));
}

#[test]
fn an_empty_open_queue_parks_the_consumer() {
    let mut queue: PlaylistQueue<u8> = PlaylistQueue::new();
    let (counter, waker) = counting_waker();
    assert!(matches!(queue.poll_next(waker), Polled::Pending));
    let parked = queue.push_back(7);
    assert!(parked.is_some());
    parked.unwrap().wake();
    assert_eq!(counter.0.load(Ordering::SeqCst), 1);
    assert!(queue.push_back(8).is_none());
    assert_eq!(item(queue.poll_next(idle_waker())), 7);
}

#[test]
fn a_closed_queue_drops_pushes() {
    let mut queue = PlaylistQueue::new();
    queue.push_back(1);
    assert!(!queue.is_closed());
    queue.close();
    assert!(queue.is_closed());
    assert!(queue.push_back(2).is_none());
    assert!(queue.push_front(3).is_none());
    assert_eq!(queue.len(), 1);
}

#[test]
fn a_closed_queue_is_drained_before_it_ends() {
    let mut queue = PlaylistQueue::new();
    queue.push_back(1);
    queue.push_back(2);
    queue.close();
    assert_eq!(item(queue.poll_next(idle_waker())), 1);
    assert_eq!(item(queue.poll_next(idle_waker())), 2);
    assert!(matches!(queue.poll_next(idle_waker()), Polled::Finished));
    assert!(matches!(queue.poll_next(idle_waker()), Polled::Finished));
}

#[test]
fn closing_hands_back_the_parked_consumer() {
    let mut queue: PlaylistQueue<u8> = PlaylistQueue::new();
    assert!(matches!(queue.poll_next(idle_waker()), Polled::Pending));
    assert!(queue.close().is_some());
    assert!(queue.close().is_none());
}

#[test]
fn the_handles_share_one_queue() {
    let (sender, mut receiver) = channel();
    let second = sender.clone();
    sender.push_front("B");
    second.push_front("A");
    sender.push_back("C");
    assert_eq!(item(receiver.poll_next(idle_waker())), "A");
    assert_eq!(item(receiver.poll_next(idle_waker())), "B");
    assert_eq!(item(receiver.poll_next(idle_waker())), "C");
    assert!(matches!(receiver.poll_next(idle_waker()), Polled::Pending));
}

#[test]
fn a_push_wakes_the_parked_receiver() {
    let (sender, mut receiver) = channel();
    let (counter, waker) = counting_waker();
    assert!(matches!(receiver.poll_next(waker), Polled::Pending));
    sender.push_back(1u8);
    assert_eq!(counter.0.load(Ordering::SeqCst), 1);
    sender.push_back(2u8);
    assert_eq!(counter.0.load(Ordering::SeqCst), 1);
    assert_eq!(item(receiver.poll_next(idle_waker())), 1);
}

#[test]
fn closing_the_receiver_ends_the_sequence() {
    let (sender, mut receiver) = channel();
    sender.push_back(1u8);
    receiver.close();
    sender.push_back(2u8);
    assert_eq!(item(receiver.poll_next(idle_waker())), 1);
    assert!(matches!(receiver.poll_next(idle_waker()), Polled::Finished));
}

#[test]
fn closing_the_receiver_wakes_it_if_parked() {
    let (_sender, mut receiver) = channel::<u8>();
    let (counter, waker) = counting_waker();
    assert!(matches!(receiver.poll_next(waker), Polled::Pending));
    receiver.close();
    assert_eq!(counter.0.load(Ordering::SeqCst), 1);
}

#[test]
fn a_track_pushed_in_front_plays_first() {
    let (sender, mut receiver) = track::channel();
    sender.push_back(track("a.mp3"));
    sender.push_front(track("b.mp3"));
    assert_eq!(item(receiver.poll_next(idle_waker())).name, "b.mp3");
    assert_eq!(item(receiver.poll_next(idle_waker())).name, "a.mp3");
}

#[test]
fn a_cloned_track_keeps_its_name() {
    let first = track("a.mp3");
    let copy = first.clone();
    assert_eq!(copy.name, "a.mp3");
    assert_eq!(first.name, copy.name);
}
