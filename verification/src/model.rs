//! A model of a semaphore's whole history, and the laws proved over it.
//!
//! The executable semaphore holds only its current state; the laws of
//! fairness and conservation speak of whole runs. This module models a run:
//! waiters are numbered by arrival, and the model carries both the queue of
//! those still blocked and the record of those already granted, so that the
//! laws can be stated and proved by induction over the operations.

use vstd::prelude::*;
use crate::sync::{step_acquire, step_release};

verus! {

/// One operation performed on the semaphore.
pub enum Op {
    /// A call of `acquire`.
    Acquire,
    /// A call of `release`.
    Release,
}

/// The semaphore together with the history that the laws speak of: blocked
/// acquirers are numbered by arrival, `next_ticket` being the next unused
/// number; `queue` holds the numbers of those still blocked, oldest first,
/// and `granted` the numbers already signalled, in signalling order.
pub struct FifoState {
    /// The number of permits available.
    pub cap: nat,
    /// Arrival numbers of the waiters still blocked, oldest first.
    pub queue: Seq<nat>,
    /// The arrival number the next blocked acquirer would get.
    pub next_ticket: nat,
    /// Arrival numbers of the waiters already signalled, in order.
    pub granted: Seq<nat>,
}

/// The model of a fresh semaphore with `initial` permits.
pub open spec fn fifo_init(initial: nat) -> FifoState {
    FifoState { cap: initial, queue: Seq::empty(), next_ticket: 0, granted: Seq::empty() }
}

/// One step of the model. An `acquire` takes a permit when one is there,
/// else blocks as the newest waiter; a `release` signals the oldest waiter
/// when one is blocked, else returns a permit.
pub open spec fn fifo_step(s: FifoState, op: Op) -> FifoState {
    match op {
        Op::Acquire => if s.cap > 0 {
            FifoState { cap: (s.cap - 1) as nat, ..s }
        } else {
            FifoState {
                queue: s.queue.push(s.next_ticket),
                next_ticket: s.next_ticket + 1,
                ..s
            }
        },
        Op::Release => if s.queue.len() > 0 {
            FifoState {
                queue: s.queue.drop_first(),
                granted: s.granted.push(s.queue[0]),
                ..s
            }
        } else {
            FifoState { cap: s.cap + 1, ..s }
        },
    }
}

/// The model after a whole sequence of operations.
pub open spec fn fifo_run(s: FifoState, ops: Seq<Op>) -> FifoState
    decreases ops.len(),
{
    if ops.len() == 0 {
        s
    } else {
        fifo_run(fifo_step(s, ops[0]), ops.drop_first())
    }
}

/// How many of the operations are acquires.
pub open spec fn acquires(ops: Seq<Op>) -> nat
    decreases ops.len(),
{
    if ops.len() == 0 {
        0
    } else {
        (if ops[0] is Acquire { 1nat } else { 0nat }) + acquires(ops.drop_first())
    }
}

/// How many of the operations are releases.
pub open spec fn releases(ops: Seq<Op>) -> nat
    decreases ops.len(),
{
    if ops.len() == 0 {
        0
    } else {
        (if ops[0] is Release { 1nat } else { 0nat }) + releases(ops.drop_first())
    }
}

/// Each model step moves the pair (available permits, queued waiters)
/// exactly as the contracts of the executable `acquire` and `release` say:
/// the model and the code agree step by step.
pub proof fn lemma_fifo_step_agrees(s: FifoState, op: Op)
    ensures
        op is Acquire ==> (fifo_step(s, op).cap, fifo_step(s, op).queue.len())
            == step_acquire(s.cap, s.queue.len()),
        op is Release ==> (fifo_step(s, op).cap, fifo_step(s, op).queue.len())
            == step_release(s.cap, s.queue.len()),
{
}

/// Over any run, permits in hand plus acquires performed balance waiters
/// still blocked plus releases performed, against the starting state.
proof fn lemma_run_ledger(s: FifoState, ops: Seq<Op>)
    ensures
        fifo_run(s, ops).cap + acquires(ops) + s.queue.len()
            == fifo_run(s, ops).queue.len() + releases(ops) + s.cap,
    decreases ops.len(),
{
    if ops.len() > 0 {
        lemma_run_ledger(fifo_step(s, ops[0]), ops.drop_first());
    }
}

/// Capacity conservation: after any sequence of operations in which every
/// `acquire` is matched by a `release` and no waiter is left blocked, the
/// number of available permits is back at the initial capacity.
pub proof fn lemma_capacity_conservation(initial: nat, ops: Seq<Op>)
    requires
        acquires(ops) == releases(ops),
        fifo_run(fifo_init(initial), ops).queue.len() == 0,
    ensures
        fifo_run(fifo_init(initial), ops).cap == initial,
{
    lemma_run_ledger(fifo_init(initial), ops);
}

/// The first `n` arrival numbers, in order.
pub open spec fn tickets_up_to(n: nat) -> Seq<nat> {
    Seq::new(n, |i: int| i as nat)
}

/// The grant record followed by the queue of the still blocked is exactly
/// the arrival order: every waiter so far, each exactly once, oldest first.
pub open spec fn arrival_order(s: FifoState) -> bool {
    s.granted + s.queue == tickets_up_to(s.next_ticket)
}

proof fn lemma_arrival_order_step(s: FifoState, op: Op)
    requires
        arrival_order(s),
    ensures
        arrival_order(fifo_step(s, op)),
{
    let t = fifo_step(s, op);
    match op {
        Op::Acquire => {
            if s.cap == 0 {
                assert(t.granted + t.queue =~= (s.granted + s.queue).push(s.next_ticket));
                assert((s.granted + s.queue).push(s.next_ticket)
                    =~= tickets_up_to(s.next_ticket + 1));
            }
        }
        Op::Release => {
            if s.queue.len() > 0 {
                assert(t.granted + t.queue =~= s.granted + s.queue);
            }
        }
    }
}

proof fn lemma_arrival_order_run(s: FifoState, ops: Seq<Op>)
    requires
        arrival_order(s),
    ensures
        arrival_order(fifo_run(s, ops)),
    decreases ops.len(),
{
    if ops.len() > 0 {
        lemma_arrival_order_step(s, ops[0]);
        lemma_arrival_order_run(fifo_step(s, ops[0]), ops.drop_first());
    }
}

/// FIFO fairness: over any run from a fresh semaphore, the waiters are
/// signalled in arrival order — the i-th grant goes to the i-th caller that
/// found no permit and blocked, whatever the order of the releases around
/// other operations.
pub proof fn lemma_fifo_order(initial: nat, ops: Seq<Op>)
    ensures
        forall|i: int|
            0 <= i < fifo_run(fifo_init(initial), ops).granted.len()
                ==> fifo_run(fifo_init(initial), ops).granted[i] == i,
{
    let s0 = fifo_init(initial);
    assert(s0.granted + s0.queue =~= tickets_up_to(0));
    lemma_arrival_order_run(s0, ops);
    let f = fifo_run(s0, ops);
    assert((f.granted + f.queue).len() == f.granted.len() + f.queue.len());
    assert(tickets_up_to(f.next_ticket).len() == f.next_ticket);
    assert forall|i: int| 0 <= i < f.granted.len() implies f.granted[i] == i by {
        assert(f.granted[i] == (f.granted + f.queue)[i]);
        assert((f.granted + f.queue)[i] == tickets_up_to(f.next_ticket)[i]);
        assert(tickets_up_to(f.next_ticket)[i] == i);
    }
}

} // verus!
