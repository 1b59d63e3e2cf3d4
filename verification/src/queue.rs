//! The playlist queue: a double-ended queue with a closed flag and at most
//! one parked consumer, and the two handles that share it behind a lock.

use std::collections::VecDeque;
use std::sync::Arc;
use std::sync::Mutex;
use std::sync::MutexGuard;
use std::sync::PoisonError;
use std::sync::TryLockError;
use std::task::Waker;
use vstd::prelude::*;

verus! {

/// `std::task::Waker`, carried through as an opaque handle.
#[verifier::external_type_specification]
#[verifier::external_body]
pub struct ExWaker(Waker);

/// `std::sync::Mutex`, carried through as an opaque lock.
#[verifier::external_type_specification]
#[verifier::external_body]
#[verifier::reject_recursive_types(T)]
pub struct ExMutex<T: ?Sized>(Mutex<T>);

/// `std::sync::MutexGuard`, carried through as an opaque guard.
#[verifier::external_type_specification]
#[verifier::external_body]
#[verifier::reject_recursive_types(T)]
pub struct ExMutexGuard<'a, T: ?Sized + 'a>(MutexGuard<'a, T>);

/// `std::sync::PoisonError`, what a lock answers when an earlier holder
/// panicked; it still carries the guard.
#[verifier::external_type_specification]
#[verifier::external_body]
#[verifier::reject_recursive_types(T)]
pub struct ExPoisonError<T>(PoisonError<T>);

/// What a consumer gets when it asks for the next item.
#[derive(Debug)]
pub enum Polled<T> {
    /// The head of the queue.
    Item(T),
    /// The queue is closed and drained: the sequence has ended.
    Finished,
    /// Nothing is ready; the consumer is parked until a wake-up.
    Pending,
}

/// What a `PlaylistQueue` holds, as plain mathematics: the pending items in
/// the order in which they will be consumed, the closed flag, and the handle
/// of the parked consumer if one is waiting.
pub struct PlaylistState<T> {
    pub items: Seq<T>,
    pub closed: bool,
    pub parked: Option<Waker>,
}

impl<T> PlaylistState<T> {
    /// The open, empty queue with no consumer parked.
    pub open spec fn empty() -> Self {
        PlaylistState { items: Seq::empty(), closed: false, parked: None }
    }

    /// The state after an insertion at the head: a closed queue ignores it.
    pub open spec fn push_front(self, value: T) -> Self {
        if self.closed {
            self
        } else {
            PlaylistState { items: seq![value] + self.items, closed: false, parked: None }
        }
    }

    /// The state after an insertion at the tail: a closed queue ignores it.
    pub open spec fn push_back(self, value: T) -> Self {
        if self.closed {
            self
        } else {
            PlaylistState { items: self.items.push(value), closed: false, parked: None }
        }
    }

    /// Whom an insertion wakes: the parked consumer of an open queue.
    pub open spec fn woken_by_push(self) -> Option<Waker> {
        if self.closed {
            None
        } else {
            self.parked
        }
    }

    /// The state after closing: what is pending stays.
    pub open spec fn close(self) -> Self {
        PlaylistState { items: self.items, closed: true, parked: None }
    }

    /// What one consumption attempt yields.
    pub open spec fn polled(self) -> Polled<T> {
        if self.items.len() > 0 {
            Polled::Item(self.items[0])
        } else if self.closed {
            Polled::Finished
        } else {
            Polled::Pending
        }
    }

    /// The state after one consumption attempt by a consumer whose handle is
    /// `waker`: the head leaves, or else the consumer of an open queue parks.
    pub open spec fn after_poll(self, waker: Waker) -> Self {
        if self.items.len() > 0 {
            PlaylistState { items: self.items.drop_first(), closed: self.closed, parked: self.parked }
        } else if self.closed {
            self
        } else {
            PlaylistState { items: self.items, closed: false, parked: Some(waker) }
        }
    }
}

/// The state that the lock guards.
pub struct PlaylistQueue<T> {
    queue: VecDeque<T>,
    waker: Option<Waker>,
    closed: bool,
}

impl<T> View for PlaylistQueue<T> {
    type V = PlaylistState<T>;

    closed spec fn view(&self) -> PlaylistState<T> {
        PlaylistState { items: self.queue@, closed: self.closed, parked: self.waker }
    }
}

impl<T> PlaylistQueue<T> {
    /// An open, empty queue with no consumer parked.
    pub fn new() -> (q: Self)
        ensures
            q@ == PlaylistState::<T>::empty(),
    {
        PlaylistQueue { queue: VecDeque::new(), waker: None, closed: false }
    }

    /// The number of pending items.
    pub fn len(&self) -> (n: usize)
        ensures
            n == self@.items.len(),
    {
        self.queue.len()
    }

    /// Whether the queue has been closed.
    pub fn is_closed(&self) -> (closed: bool)
        ensures
            closed == self@.closed,
    {
        self.closed
    }

    /// Inserts at the head unless the queue is closed, and hands back the
    /// parked consumer's handle for the caller to wake.
    pub fn push_front(&mut self, value: T) -> (wake: Option<Waker>)
        ensures
            final(self)@ == old(self)@.push_front(value),
            wake == old(self)@.woken_by_push(),
    {
        if self.closed {
            return None;
        }
        self.queue.push_front(value);
        self.waker.take()
    }

    /// Inserts at the tail unless the queue is closed, and hands back the
    /// parked consumer's handle for the caller to wake.
    pub fn push_back(&mut self, value: T) -> (wake: Option<Waker>)
        ensures
            final(self)@ == old(self)@.push_back(value),
            wake == old(self)@.woken_by_push(),
    {
        if self.closed {
            return None;
        }
        self.queue.push_back(value);
        self.waker.take()
    }

    /// Marks the queue closed, keeping what is pending, and hands back the
    /// parked consumer's handle for the caller to wake.
    pub fn close(&mut self) -> (wake: Option<Waker>)
        ensures
            final(self)@ == old(self)@.close(),
            wake == old(self)@.parked,
    {
        self.closed = true;
        self.waker.take()
    }

    /// One consumption attempt. A pending item is handed out whether or not
    /// the queue is closed; an empty closed queue ends the sequence; an empty
    /// open queue parks `waker`, replacing an earlier one.
    pub fn poll_next(&mut self, waker: Waker) -> (polled: Polled<T>)
        ensures
            polled == old(self)@.polled(),
            final(self)@ == old(self)@.after_poll(waker),
    {
        match self.queue.pop_front() {
            Some(item) => Polled::Item(item),
            None => {
                if self.closed {
                    Polled::Finished
                } else {
                    self.waker = Some(waker);
                    Polled::Pending
                }
            },
        }
    }
}

/// The producing handle: any number of them may share one queue.
#[verifier::reject_recursive_types(T)]
pub struct Sender<T>(pub(crate) Arc<Mutex<PlaylistQueue<T>>>);

/// The consuming handle.
#[verifier::reject_recursive_types(T)]
pub struct Receiver<T>(Arc<Mutex<PlaylistQueue<T>>>);

impl<T> Clone for Sender<T> {
    /// Another producing handle on the same queue.
    fn clone(&self) -> (other: Self)
        ensures
            other == *self,
    {
        Sender(share(&self.0))
    }
}

impl<T> Sender<T> {
    /// Whether this handle and `receiver` guard the same queue.
    pub closed spec fn shares_with(&self, receiver: &Receiver<T>) -> bool {
        self.0 == receiver.0
    }
}

/// `Mutex::new`: a lock around `state`.
#[verifier::external_body]
fn new_lock<T>(state: PlaylistQueue<T>) -> Mutex<PlaylistQueue<T>> {
    Mutex::new(state)
}

/// `Arc::clone`: a second owner of the same lock.
#[verifier::external_body]
fn share<T>(shared: &Arc<Mutex<PlaylistQueue<T>>>) -> (other: Arc<Mutex<PlaylistQueue<T>>>)
    ensures
        other == *shared,
{
    Arc::clone(shared)
}

/// `Mutex::lock`: waits until the lock is free and takes it. Nothing is
/// claimed of the state behind it. No function of this module asks for the
/// lock while it holds the guard.
#[verifier::external_body]
fn lock<T>(shared: &Arc<Mutex<PlaylistQueue<T>>>) -> Result<
    MutexGuard<'_, PlaylistQueue<T>>,
    PoisonError<MutexGuard<'_, PlaylistQueue<T>>>,
> {
    shared.lock()
}

/// What an attempt to take the lock without waiting came to.
#[verifier::reject_recursive_types(T)]
enum Attempt<'a, T> {
    /// The lock was free.
    Taken(MutexGuard<'a, PlaylistQueue<T>>),
    /// The lock was free, and an earlier holder had panicked.
    Poisoned(PoisonError<MutexGuard<'a, PlaylistQueue<T>>>),
    /// Somebody holds the lock.
    Busy,
}

/// `Mutex::try_lock`: takes the lock if nobody holds it, and never waits.
#[verifier::external_body]
fn try_lock<T>(shared: &Arc<Mutex<PlaylistQueue<T>>>) -> Attempt<'_, T> {
    match shared.try_lock() {
        Ok(guard) => Attempt::Taken(guard),
        Err(TryLockError::Poisoned(poisoned)) => Attempt::Poisoned(poisoned),
        Err(TryLockError::WouldBlock) => Attempt::Busy,
    }
}

/// `PoisonError::into_inner`: the guard that a poisoned lock still gave.
#[verifier::external_body]
fn recover<'a, T>(poisoned: PoisonError<MutexGuard<'a, PlaylistQueue<T>>>) -> MutexGuard<
    'a,
    PlaylistQueue<T>,
> {
    poisoned.into_inner()
}

/// The guard that an answer of the lock carries. A lock that a panicking
/// holder left poisoned gives its guard all the same: every transition
/// leaves the state behind it a queue.
fn unpoisoned<'a, T>(
    answer: Result<
        MutexGuard<'a, PlaylistQueue<T>>,
        PoisonError<MutexGuard<'a, PlaylistQueue<T>>>,
    >,
) -> (held: MutexGuard<'a, PlaylistQueue<T>>)
    ensures
        answer matches Ok(guard) ==> held == guard,
{
    match answer {
        Ok(guard) => guard,
        Err(poisoned) => recover(poisoned),
    }
}

/// The guard that an attempt on the lock came to, poisoned or not, or none
/// where somebody holds the lock.
fn settled<'a, T>(attempt: Attempt<'a, T>) -> (held: Option<MutexGuard<'a, PlaylistQueue<T>>>)
    ensures
        attempt matches Attempt::Taken(guard) ==> held == Some(guard),
        attempt is Poisoned ==> held is Some,
        attempt is Busy ==> held is None,
{
    match attempt {
        Attempt::Taken(guard) => Some(guard),
        Attempt::Poisoned(poisoned) => Some(recover(poisoned)),
        Attempt::Busy => None,
    }
}

/// Waits for the lock and takes it, poisoned or not. Which guard comes
/// back is the lock's to say.
pub(crate) fn acquire<T>(shared: &Arc<Mutex<PlaylistQueue<T>>>) -> MutexGuard<
    '_,
    PlaylistQueue<T>,
> {
    unpoisoned(lock(shared))
}

/// Takes the lock if nobody holds it, poisoned or not, and never waits.
/// Whether a guard comes back is the lock's to say.
fn try_acquire<T>(shared: &Arc<Mutex<PlaylistQueue<T>>>) -> Option<
    MutexGuard<'_, PlaylistQueue<T>>,
> {
    settled(try_lock(shared))
}

/// `DerefMut::deref_mut` of the guard: the state behind the held lock,
/// of which nothing is claimed.
#[verifier::external_body]
pub(crate) fn guarded<'a, 'b, T>(
    guard: &'a mut MutexGuard<'b, PlaylistQueue<T>>,
) -> &'a mut PlaylistQueue<T> {
    &mut **guard
}

/// `Waker::wake`: tells the runtime to poll the parked consumer again.
#[verifier::external_body]
fn wake(waker: Waker) {
    waker.wake()
}

/// One consumption attempt on what an attempt on the lock gave. With the
/// guard, the queue behind it answers. Without it the answer is `Pending`,
/// and `waker` is woken at once so that the attempt is made again.
fn poll_held<T>(held: Option<MutexGuard<'_, PlaylistQueue<T>>>, waker: Waker) -> (polled: Polled<T>)
    ensures
        held is None ==> polled == Polled::<T>::Pending,
{
    match held {
        Some(mut guard) => guarded(&mut guard).poll_next(waker),
        None => {
            wake(waker);
            Polled::Pending
        },
    }
}

/// Wakes the consumer whose handle a transition handed back, if any.
pub(crate) fn notify(parked: Option<Waker>) {
    match parked {
        Some(waker) => wake(waker),
        None => {},
    }
}

impl<T> Sender<T> {
    /// Inserts `value` at the head of the shared queue; nothing happens if
    /// the queue has been closed. Never waits for the consumer, and wakes it
    /// if it was parked.
    pub fn push_front(&self, value: T) {
        let parked = {
            let mut guard = acquire(&self.0);
            guarded(&mut guard).push_front(value)
        };
        notify(parked);
    }

    /// Inserts `value` at the tail of the shared queue; nothing happens if
    /// the queue has been closed. Never waits for the consumer, and wakes it
    /// if it was parked.
    pub fn push_back(&self, value: T) {
        let parked = {
            let mut guard = acquire(&self.0);
            guarded(&mut guard).push_back(value)
        };
        notify(parked);
    }
}

impl<T> Receiver<T> {
    /// Closes the shared queue: later pushes are dropped, and the consumer
    /// sees the end of the sequence once it has drained what is pending.
    /// The handle itself stays as it was; what changes is behind the lock,
    /// where `PlaylistQueue::close` says what happens.
    pub fn close(&mut self)
        ensures
            *final(self) == *old(self),
    {
        let parked = {
            let mut guard = acquire(&self.0);
            guarded(&mut guard).close()
        };
        notify(parked);
    }

    /// One consumption attempt that never waits: when a producer holds the
    /// lock the answer is `Pending`, and `waker` is woken at once so that
    /// the attempt is made again. The handle itself stays as it was; what
    /// is handed out is the shared queue's to say, and
    /// `PlaylistQueue::poll_next` says it for every state of that queue.
    pub fn poll_next(&mut self, waker: Waker) -> (polled: Polled<T>)
        ensures
            *final(self) == *old(self),
    {
        poll_held(try_acquire(&self.0), waker)
    }
}

/// Opens an empty playlist channel and returns its two ends.
pub fn channel<T>() -> (ends: (Sender<T>, Receiver<T>))
    ensures
        ends.0.shares_with(&ends.1),
{
    let inner = Arc::new(new_lock(PlaylistQueue::new()));
    let sender = Sender(share(&inner));
    let receiver = Receiver(inner);
    (sender, receiver)
}

/// One step of a queue's history.
pub enum QueueOp<T> {
    /// A producer inserts at the head.
    PushFront(T),
    /// A producer inserts at the tail.
    PushBack(T),
    /// The consumer, whose handle this is, asks for the next item.
    Take(Waker),
    /// The queue is closed.
    Close,
}

impl<T> PlaylistState<T> {
    /// The state after `op`.
    pub open spec fn apply(self, op: QueueOp<T>) -> Self {
        match op {
            QueueOp::PushFront(value) => self.push_front(value),
            QueueOp::PushBack(value) => self.push_back(value),
            QueueOp::Take(waker) => self.after_poll(waker),
            QueueOp::Close => self.close(),
        }
    }

    /// The state of a queue that starts empty and goes through `ops`.
    pub open spec fn history(ops: Seq<QueueOp<T>>) -> Self
        decreases ops.len(),
    {
        if ops.len() == 0 {
            Self::empty()
        } else {
            Self::history(ops.drop_last()).apply(ops.last())
        }
    }
}

/// What the consumer has been handed over the history `ops`, in order.
pub open spec fn consumed<T>(ops: Seq<QueueOp<T>>) -> Seq<T>
    decreases ops.len(),
{
    if ops.len() == 0 {
        Seq::empty()
    } else {
        let earlier = consumed(ops.drop_last());
        match (ops.last(), PlaylistState::history(ops.drop_last()).polled()) {
            (QueueOp::Take(_), Polled::Item(item)) => earlier.push(item),
            _ => earlier,
        }
    }
}

/// The head insertions of `ops` that were accepted and are still pending,
/// newest first: a take removes the newest while there is one.
pub open spec fn urgent<T>(ops: Seq<QueueOp<T>>) -> Seq<T>
    decreases ops.len(),
{
    if ops.len() == 0 {
        Seq::empty()
    } else {
        let earlier = urgent(ops.drop_last());
        match ops.last() {
            QueueOp::PushFront(value) => if PlaylistState::history(ops.drop_last()).closed {
                earlier
            } else {
                seq![value] + earlier
            },
            QueueOp::Take(_) => if earlier.len() > 0 {
                earlier.drop_first()
            } else {
                earlier
            },
            _ => earlier,
        }
    }
}

/// The tail insertions of `ops` that were accepted and are still pending,
/// oldest first: a take removes the oldest, and only when no head insertion
/// is pending.
pub open spec fn regular<T>(ops: Seq<QueueOp<T>>) -> Seq<T>
    decreases ops.len(),
{
    if ops.len() == 0 {
        Seq::empty()
    } else {
        let earlier = regular(ops.drop_last());
        match ops.last() {
            QueueOp::PushBack(value) => if PlaylistState::history(ops.drop_last()).closed {
                earlier
            } else {
                earlier.push(value)
            },
            QueueOp::Take(_) => if urgent(ops.drop_last()).len() == 0 && earlier.len() > 0 {
                earlier.drop_first()
            } else {
                earlier
            },
            _ => earlier,
        }
    }
}

/// Head insertions take priority and tail insertions keep their order:
/// after any history of pushes, takes and closings, what is pending is the
/// head insertions not yet consumed, newest first, followed by the tail
/// insertions not yet consumed, oldest first.
pub proof fn lemma_front_inserts_take_priority<T>(ops: Seq<QueueOp<T>>)
    ensures
        PlaylistState::history(ops).items == urgent(ops) + regular(ops),
    decreases ops.len(),
{
    if ops.len() > 0 {
        let before = ops.drop_last();
        lemma_front_inserts_take_priority(before);
        let closed = PlaylistState::history(before).closed;
        match ops.last() {
            QueueOp::PushFront(value) => {
                if !closed {
                    assert(seq![value] + (urgent(before) + regular(before)) == (seq![value]
                        + urgent(before)) + regular(before));
                }
            },
            QueueOp::PushBack(value) => {
                if !closed {
                    assert((urgent(before) + regular(before)).push(value) == urgent(before)
                        + regular(before).push(value));
                }
            },
            QueueOp::Take(_) => {
                if urgent(before).len() > 0 {
                    assert((urgent(before) + regular(before)).drop_first() == urgent(
                        before,
                    ).drop_first() + regular(before));
                } else {
                    assert(urgent(before) + regular(before) == regular(before));
                    assert(urgent(before) + regular(ops) == regular(ops));
                }
            },
            QueueOp::Close => {},
        }
    }
}

/// Consuming is destructive and in order: a take moves the head of what is
/// pending to the end of what the consumer has been handed, and nothing
/// else moves.
pub proof fn lemma_take_hands_out_the_head<T>(ops: Seq<QueueOp<T>>, waker: Waker)
    ensures
        consumed(ops.push(QueueOp::Take(waker))) + PlaylistState::history(
            ops.push(QueueOp::Take(waker)),
        ).items == consumed(ops) + PlaylistState::history(ops).items,
{
    let taken = ops.push(QueueOp::Take(waker));
    assert(taken.drop_last() == ops);
    let waiting = PlaylistState::history(ops).items;
    if waiting.len() > 0 {
        assert(consumed(ops).push(waiting[0]) + waiting.drop_first() == consumed(ops) + waiting);
    }
}

} // verus!
