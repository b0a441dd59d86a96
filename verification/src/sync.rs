//! A counting semaphore for cooperative, future-based concurrency.
//!
//! The semaphore owns a pool of permits and a FIFO queue of waiters. An
//! `acquire` either takes a permit at once or enqueues a one-shot completion
//! signal whose consumer side is handed back to the caller as a handle; a
//! `release` hands its permit directly to the oldest waiter, or returns it to
//! the pool when nobody waits.

use vstd::prelude::*;
use std::collections::VecDeque;

verus! {

/// The sending half of a one-shot completion channel, held in the waiter
/// queue; the semaphore signals it when a permit is handed over.
#[verifier::external_type_specification]
#[verifier::external_body]
#[verifier::reject_recursive_types(T)]
pub struct ExSender<T>(futures::sync::oneshot::Sender<T>);

/// The receiving half of a one-shot completion channel, carried by a waiting
/// handle; it resolves once the paired sender is signalled.
#[verifier::external_type_specification]
#[verifier::external_body]
#[verifier::reject_recursive_types(T)]
pub struct ExReceiver<T>(futures::sync::oneshot::Receiver<T>);

/// Relies on futures::sync::oneshot::channel: returns a connected
/// sender/receiver pair; it never fails.
#[verifier::external_body]
fn oneshot_pair() -> (pair: (
    futures::sync::oneshot::Sender<()>,
    futures::sync::oneshot::Receiver<()>,
))
{
    futures::sync::oneshot::channel()
}

/// Relies on futures::sync::oneshot::Sender::send: delivers the signal to the
/// paired receiver, reporting `false` when that receiver is already gone; it
/// never panics.
#[verifier::external_body]
fn send_signal(sender: futures::sync::oneshot::Sender<()>) -> (delivered: bool)
{
    sender.send(()).is_ok()
}

/// Relies on futures::sync::oneshot::Receiver::try_recv: without needing a
/// task context, reports the signal if it has arrived, `Pending` if it has
/// not yet, and `Cancelled` when the paired sender was dropped unsignalled;
/// it never panics.
#[verifier::external_body]
fn try_take(receiver: &mut futures::sync::oneshot::Receiver<()>) -> (status: HandleStatus)
{
    match receiver.try_recv() {
        Ok(Some(())) => HandleStatus::Ready,
        Ok(None) => HandleStatus::Pending,
        Err(_) => HandleStatus::Cancelled,
    }
}

/// The outcome of polling a [`SemaphoreHandle`].
#[derive(Clone, Copy, Debug, PartialEq, Eq, Structural)]
pub enum HandleStatus {
    /// The permit has been granted; the handle is resolved.
    Ready,
    /// No permit yet; the caller must poll again later.
    Pending,
    /// The semaphore was dropped before the waiter was ever signalled.
    Cancelled,
}

/// A counting semaphore: a pool of permits and a FIFO queue of blocked
/// acquirers, arbitrated one operation at a time.
pub struct Semaphore {
    capacity: usize,
    waiters: VecDeque<futures::sync::oneshot::Sender<()>>,
}

/// The value returned by [`Semaphore::acquire`].
pub enum SemaphoreHandle {
    /// The permit is still owed; resolves when a `release` signals the
    /// paired sender.
    Waiting(futures::sync::oneshot::Receiver<()>),
    /// The permit was granted; trivially resolved.
    Completed,
}

impl Semaphore {
    /// The number of permits currently available.
    pub closed spec fn cap(self) -> nat {
        self.capacity as nat
    }

    /// The queued waiters, oldest first.
    pub closed spec fn queue(self) -> Seq<futures::sync::oneshot::Sender<()>> {
        self.waiters@
    }

    /// A waiter is queued only while no permit is available.
    pub open spec fn wf(self) -> bool {
        self.queue().len() > 0 ==> self.cap() == 0
    }

    /// Creates a semaphore holding `initial` permits and no waiters.
    pub fn new(initial: usize) -> (s: Semaphore)
        ensures
            s.cap() == initial,
            s.queue() == Seq::<futures::sync::oneshot::Sender<()>>::empty(),
            s.wf(),
    {
        Semaphore {
            capacity: initial,
            waiters: VecDeque::new(),
        }
    }

    /// Returns the number of permits currently available.
    pub fn current_capacity(&self) -> (c: usize)
        ensures
            c == self.cap(),
    {
        self.capacity
    }

    /// Requests a permit. When one is available it is taken at once and the
    /// handle comes back already resolved; otherwise a fresh completion
    /// channel is made, its sender joins the back of the waiter queue, and
    /// the handle wraps the receiver.
    pub fn acquire(&mut self) -> (h: SemaphoreHandle)
        requires
            old(self).wf(),
        ensures
            final(self).wf(),
            (final(self).cap(), final(self).queue().len()) == step_acquire(
                old(self).cap(),
                old(self).queue().len(),
            ),
            old(self).cap() > 0 ==> {
                &&& h is Completed
                &&& final(self).queue() == old(self).queue()
            },
            old(self).cap() == 0 ==> {
                &&& h is Waiting
                &&& final(self).queue().drop_last() == old(self).queue()
            },
    {
        if self.capacity > 0 {
            self.capacity = self.capacity - 1;
            SemaphoreHandle::Completed
        } else {
            let pair = oneshot_pair();
            self.waiters.push_back(pair.0);
            SemaphoreHandle::Waiting(pair.1)
        }
    }

    /// Returns a permit. When a waiter is queued, the oldest one is removed
    /// and signalled: the permit passes to it directly and the pool is left
    /// untouched, so a newer `acquire` cannot overtake it. With nobody
    /// waiting, the pool simply grows by one; releasing more often than
    /// acquiring is not detected, the pool then grows past the initial
    /// capacity. If the signalled waiter has already dropped its handle, the
    /// signal is lost with the permit: an abandoned waiter costs the permit
    /// that would have woken it.
    pub fn release(&mut self)
        requires
            old(self).wf(),
            old(self).cap() < usize::MAX,
        ensures
            final(self).wf(),
            (final(self).cap(), final(self).queue().len()) == step_release(
                old(self).cap(),
                old(self).queue().len(),
            ),
            old(self).queue().len() > 0 ==> {
                &&& final(self).queue() == old(self).queue().drop_first()
                &&& final(self).cap() == 0
            },
            old(self).queue().len() == 0 ==> {
                &&& final(self).queue() == old(self).queue()
                &&& final(self).cap() == old(self).cap() + 1
            },
    {
        if self.waiters.len() > 0 {
            let front = self.waiters.pop_front();
            match front {
                Some(sender) => {
                    send_signal(sender);
                }
                None => {
                    proof {
                        assert(false);
                    }
                }
            }
        } else {
            self.capacity = self.capacity + 1;
        }
    }
}

/// Non-negativity: the count of available permits, the value that
/// `current_capacity` reports, is never negative in any reachable state.
pub proof fn lemma_capacity_nonnegative(s: Semaphore)
    ensures
        s.cap() >= 0,
{
}

/// The effect of one `acquire` on the pair (available permits, queued
/// waiters): a permit is taken when one is there, else a waiter joins.
pub open spec fn step_acquire(cap: nat, pending: nat) -> (nat, nat) {
    if cap > 0 {
        ((cap - 1) as nat, pending)
    } else {
        (cap, pending + 1)
    }
}

/// The effect of one `release` on the pair (available permits, queued
/// waiters): the oldest waiter leaves when one is queued, else a permit is
/// returned.
pub open spec fn step_release(cap: nat, pending: nat) -> (nat, nat) {
    if pending > 0 {
        (cap, (pending - 1) as nat)
    } else {
        (cap + 1, pending)
    }
}

impl SemaphoreHandle {
    /// Drives the handle one step. A resolved handle reports `Ready` again
    /// without touching any semaphore state. A waiting handle asks its
    /// receiver: on `Ready` the permit has arrived and the handle becomes
    /// resolved, so every later poll reports `Ready` too; on `Cancelled` the
    /// paired sender was dropped unsignalled and the caller may treat the
    /// wait as failed.
    pub fn poll(&mut self) -> (status: HandleStatus)
        ensures
            *old(self) is Completed ==> status == HandleStatus::Ready,
            status == HandleStatus::Ready <==> *final(self) is Completed,
            !(*final(self) is Completed) ==> *old(self) is Waiting && *final(self) is Waiting,
    {
        let status: HandleStatus = match self {
            SemaphoreHandle::Completed => HandleStatus::Ready,
            SemaphoreHandle::Waiting(receiver) => try_take(receiver),
        };
        if status == HandleStatus::Ready {
            *self = SemaphoreHandle::Completed;
        }
        status
    }
}

} // verus!
