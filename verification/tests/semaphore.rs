use semaphore::sync::{HandleStatus, Semaphore};

#[test]
fn new_reports_initial_capacity() {
    let s = Semaphore::new(5);
    assert_eq!(s.current_capacity(), 5);
    let t = Semaphore::new(0);
    assert_eq!(t.current_capacity(), 0);
}

#[test]
fn immediate_grant() {
    let mut s = Semaphore::new(1);
    let mut h = s.acquire();
    assert_eq!(h.poll(), HandleStatus::Ready);
    assert_eq!(s.current_capacity(), 0);
}

#[test]
fn blocking_then_release() {
    let mut s = Semaphore::new(0);
    let mut h = s.acquire();
    assert_eq!(h.poll(), HandleStatus::Pending);
    s.release();
    assert_eq!(h.poll(), HandleStatus::Ready);
    // The permit went straight to the waiter, not through the pool.
    assert_eq!(s.current_capacity(), 0);
}

#[test]
fn over_release() {
    let mut s = Semaphore::new(0);
    s.release();
    assert_eq!(s.current_capacity(), 1);
}

#[test]
fn release_keeps_growing_the_pool() {
    let mut s = Semaphore::new(0);
    s.release();
    s.release();
    s.release();
    assert_eq!(s.current_capacity(), 3);
}

#[test]
fn fifo_fairness() {
    let mut s = Semaphore::new(0);
    let mut h1 = s.acquire();
    let mut h2 = s.acquire();
    let mut h3 = s.acquire();
    s.release();
    assert_eq!(h2.poll(), HandleStatus::Pending);
    assert_eq!(h3.poll(), HandleStatus::Pending);
    assert_eq!(h1.poll(), HandleStatus::Ready);
    s.release();
    assert_eq!(h3.poll(), HandleStatus::Pending);
    assert_eq!(h2.poll(), HandleStatus::Ready);
    s.release();
    assert_eq!(h3.poll(), HandleStatus::Ready);
    assert_eq!(s.current_capacity(), 0);
}

#[test]
fn idempotent_resolution() {
    let mut s = Semaphore::new(1);
    let mut h = s.acquire();
    assert_eq!(h.poll(), HandleStatus::Ready);
    assert_eq!(h.poll(), HandleStatus::Ready);
    assert_eq!(s.current_capacity(), 0);

    let mut t = Semaphore::new(0);
    let mut w = t.acquire();
    t.release();
    assert_eq!(w.poll(), HandleStatus::Ready);
    assert_eq!(w.poll(), HandleStatus::Ready);
    assert_eq!(t.current_capacity(), 0);
}

#[test]
fn capacity_conservation() {
    let mut s = Semaphore::new(2);
    let mut a = s.acquire();
    let mut b = s.acquire();
    let mut c = s.acquire();
    assert_eq!(a.poll(), HandleStatus::Ready);
    assert_eq!(b.poll(), HandleStatus::Ready);
    assert_eq!(c.poll(), HandleStatus::Pending);
    s.release();
    assert_eq!(c.poll(), HandleStatus::Ready);
    s.release();
    s.release();
    // Three acquires, three releases, nobody left pending: back to 2.
    assert_eq!(s.current_capacity(), 2);
}

#[test]
fn cancelled_when_semaphore_dropped() {
    let mut s = Semaphore::new(0);
    let mut h = s.acquire();
    drop(s);
    assert_eq!(h.poll(), HandleStatus::Cancelled);
    assert_eq!(h.poll(), HandleStatus::Cancelled);
}

#[test]
fn abandoned_waiter_costs_permit() {
    let mut s = Semaphore::new(0);
    let h = s.acquire();
    drop(h);
    s.release();
    // The signal had nobody to reach; the permit is gone with it.
    assert_eq!(s.current_capacity(), 0);
}
