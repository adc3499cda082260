//! The download queue: a shared, swappable semaphore caps how many downloads
//! do real work at the same time. Acquiring a permit counts a task against
//! the maximum; dropping the permit frees the slot.
use vstd::prelude::*;

use std::sync::Arc;
use std::sync::RwLock;
use tokio::sync::Semaphore;

verus! {

#[verifier::external_type_specification]
#[verifier::external_body]
pub struct ExSemaphore(Semaphore);

#[verifier::external_type_specification]
#[verifier::external_body]
#[verifier::reject_recursive_types(T)]
pub struct ExRwLock<T: ?Sized>(RwLock<T>);

/// The shared handle on the current semaphore, which downloaders snapshot
/// and acquire on from their own tasks.
pub type Permits = Arc<RwLock<Arc<Semaphore>>>;

/// The largest capacity a semaphore can have (`Semaphore::MAX_PERMITS`,
/// that is `usize::MAX >> 3`).
pub open spec fn max_permits() -> usize {
    usize::MAX / 8
}

/// The number of permits a semaphore was created with. Acquiring and
/// releasing permits changes how many are available, never this number.
pub uninterp spec fn semaphore_capacity(s: Semaphore) -> nat;

/// The capacity of the semaphore a lock was created around. Replacing the
/// semaphore later does not change this number.
pub uninterp spec fn lock_initial_capacity(l: RwLock<Arc<Semaphore>>) -> nat;

/// `Semaphore::new`: a semaphore with `permits` permits.
///
/// Trusted: claims that the semaphore is created with `permits` permits, as
/// the constructor's documentation says; it panics above `MAX_PERMITS`,
/// which the precondition rules out.
#[verifier::external_body]
fn new_semaphore(permits: usize) -> (r: Semaphore)
    requires
        permits <= max_permits(),
    ensures
        semaphore_capacity(r) == permits,
{
    Semaphore::new(permits)
}

/// `RwLock::new`: a lock holding `value`.
///
/// Trusted: claims that the lock starts out holding `value`, as its
/// documentation says, stated through the capacity of that semaphore. What
/// the lock holds after a write is not stated.
#[verifier::external_body]
fn new_lock(value: Arc<Semaphore>) -> (r: RwLock<Arc<Semaphore>>)
    ensures
        lock_initial_capacity(r) == semaphore_capacity(*value),
{
    RwLock::new(value)
}

/// Replaces the semaphore behind the lock (`RwLock::write` and assignment).
///
/// Trusted; nothing is stated about the lock. A poisoned lock is written
/// anyway: only a panic while holding its write guard could poison it, and
/// the only write is this assignment.
#[verifier::external_body]
fn replace_locked(lock: &RwLock<Arc<Semaphore>>, value: Arc<Semaphore>) {
    match lock.write() {
        Ok(mut guard) => *guard = value,
        Err(poisoned) => *poisoned.into_inner() = value,
    }
}

/// `Arc::clone`: another handle on the same value.
///
/// Trusted: claims that the handle points to the same value.
#[verifier::external_body]
fn share(p: &Permits) -> (r: Permits)
    ensures
        r == *p,
{
    Arc::clone(p)
}

/// The number of slots for a configured maximum: at least one.
pub open spec fn queue_capacity_spec(max_concurrent: usize) -> usize {
    if max_concurrent == 0 {
        1
    } else {
        max_concurrent
    }
}

pub fn queue_capacity(max_concurrent: usize) -> (r: usize)
    ensures
        r == queue_capacity_spec(max_concurrent),
        r >= 1,
{
    if max_concurrent == 0 {
        1
    } else {
        max_concurrent
    }
}

/// A fresh semaphore with `queue_capacity(max_concurrent)` permits.
fn queue_semaphore(max_concurrent: usize) -> (r: Semaphore)
    requires
        max_concurrent <= max_permits(),
    ensures
        semaphore_capacity(r) == queue_capacity_spec(max_concurrent),
{
    new_semaphore(queue_capacity(max_concurrent))
}

/// Caps the number of downloads running at once.
pub struct QueueManager {
    permits: Permits,
}

impl QueueManager {
    /// The shared permits handle of this queue.
    pub closed spec fn handle(&self) -> Permits {
        self.permits
    }

    /// The number of slots the queue was created with.
    pub closed spec fn initial_capacity(&self) -> nat {
        lock_initial_capacity(*self.permits)
    }

    /// A queue with `queue_capacity(max_concurrent)` slots.
    pub fn new(max_concurrent: usize) -> (r: QueueManager)
        requires
            max_concurrent <= max_permits(),
        ensures
            r.initial_capacity() == queue_capacity_spec(max_concurrent),
    {
        let sem = queue_semaphore(max_concurrent);
        QueueManager { permits: Arc::new(new_lock(Arc::new(sem))) }
    }

    /// The shared permits handle.
    pub fn permits(&self) -> (r: Permits)
        ensures
            r == self.handle(),
    {
        share(&self.permits)
    }

    /// Replaces the semaphore with one of `queue_capacity(max_concurrent)`
    /// slots. Tasks already running keep (and later release) permits of the
    /// old semaphore; tasks that start afterwards acquire on the new one.
    pub fn set_max(&self, max_concurrent: usize)
        requires
            max_concurrent <= max_permits(),
    {
        let sem = queue_semaphore(max_concurrent);
        replace_locked(&self.permits, Arc::new(sem));
    }
}

} // verus!
