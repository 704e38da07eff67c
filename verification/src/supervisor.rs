//! Process supervisor: a single slot that owns at most one live worker
//! handle. `start` stores the handle of a freshly spawned worker and hands
//! back any handle it displaced, so the caller can terminate it rather than
//! leak it; `stop` takes whatever the slot holds, leaving it empty, and the
//! caller signals termination to a taken handle. Both are safe in any order
//! and any number of times.
//!
//! The caller that shares the supervisor between threads wraps it in a
//! mutual-exclusion lock; each method here is one read-modify step of the
//! slot, so one lock acquisition covers it.

use vstd::prelude::*;
use vstd::rwlock::RwLock;

verus! {

/// The slot before any start: no handle.
pub open spec fn initial_state<H>() -> Option<H> {
    None
}

/// The slot after a successful start: exactly the new handle.
pub open spec fn start_next<H>(state: Option<H>, handle: H) -> Option<H> {
    Some(handle)
}

/// The slot after a stop: empty.
pub open spec fn stop_next<H>(state: Option<H>) -> Option<H> {
    None
}

/// What a stop takes out of the slot: whatever it held.
pub open spec fn stop_taken<H>(state: Option<H>) -> Option<H> {
    state
}

/// The single-slot owner of the running worker's handle.
pub struct Supervisor<H> {
    slot: Option<H>,
}

impl<H> Supervisor<H> {
    /// The handle the slot currently holds, if any.
    pub closed spec fn state(&self) -> Option<H> {
        self.slot
    }

    /// A supervisor that tracks no worker yet.
    pub fn new() -> (r: Self)
        ensures
            r.state() == initial_state::<H>(),
    {
        Supervisor { slot: None }
    }

    /// Records the handle of a worker that was just spawned. If the slot
    /// already held a handle, that handle is returned so the caller can
    /// terminate the process it tracks: a second start never leaks a live
    /// handle silently.
    pub fn start(&mut self, handle: H) -> (displaced: Option<H>)
        ensures
            final(self).state() == start_next(old(self).state(), handle),
            displaced == old(self).state(),
    {
        let displaced = self.slot.take();
        self.slot = Some(handle);
        displaced
    }

    /// Takes the tracked handle, leaving the slot empty. The caller sends
    /// the termination signal to a returned handle; with no handle present
    /// this is a no-op, so calling it before any start, or a second time,
    /// is safe.
    pub fn stop(&mut self) -> (taken: Option<H>)
        ensures
            final(self).state() == stop_next(old(self).state()),
            taken == stop_taken(old(self).state()),
    {
        self.slot.take()
    }

    /// Whether a worker handle is currently tracked.
    pub fn is_running(&self) -> (r: bool)
        ensures
            r == (self.state() is Some),
    {
        self.slot.is_some()
    }
}

/// The supervisor as the host's event-dispatch threads share it: the slot
/// behind a verified mutual-exclusion lock, so that the ready handler's
/// `start` and the close handler's `stop` are each one exclusive
/// read-modify step of the slot, never an interleaved pair.
///
/// The lock hides the slot from concurrent observers, so these methods can
/// promise nothing about the state another thread sees afterwards; what each
/// returns is governed by `Supervisor`'s contracts over the slot as it stood
/// while the lock was held.
#[verifier::reject_recursive_types(H)]
pub struct SharedSupervisor<H> {
    lock: RwLock<Supervisor<H>, spec_fn(Supervisor<H>) -> bool>,
}

impl<H> SharedSupervisor<H> {
    /// Any slot value may sit behind the lock: the slot itself carries no
    /// invariant beyond its type, so the lock's predicate is vacuous.
    #[verifier::type_invariant]
    closed spec fn wf(&self) -> bool {
        forall|s: Supervisor<H>| self.lock.inv(s)
    }

    /// A shared supervisor whose slot starts empty.
    pub fn new() -> (r: Self) {
        let lock = RwLock::new(Supervisor::new(), Ghost(|s: Supervisor<H>| true));
        SharedSupervisor { lock }
    }

    /// Records a freshly spawned worker's handle under the lock and hands
    /// back any handle it displaced, for the caller to terminate.
    pub fn start(&self, handle: H) -> (displaced: Option<H>) {
        proof {
            use_type_invariant(self);
        }
        let (mut sup, write_handle) = self.lock.acquire_write();
        let displaced = sup.start(handle);
        write_handle.release_write(sup);
        displaced
    }

    /// Takes the tracked handle under the lock, leaving the slot empty; the
    /// caller sends the termination signal to a returned handle. Safe before
    /// any start and safe to repeat: with nothing stored it takes nothing.
    pub fn stop(&self) -> (taken: Option<H>) {
        proof {
            use_type_invariant(self);
        }
        let (mut sup, write_handle) = self.lock.acquire_write();
        let taken = sup.stop();
        write_handle.release_write(sup);
        taken
    }

    /// Whether a worker handle was tracked at the moment of the look.
    pub fn is_running(&self) -> (r: bool) {
        let read_handle = self.lock.acquire_read();
        let running = read_handle.borrow().is_running();
        read_handle.release_read();
        running
    }
}

/// A stop before any start is a no-op: it takes no handle and leaves the
/// slot as empty as it found it.
pub proof fn lemma_stop_before_start_is_noop<H>()
    ensures
        stop_taken(initial_state::<H>()) is None,
        stop_next(initial_state::<H>()) == initial_state::<H>(),
{
}

/// A start followed by a stop surrenders exactly the stored handle — the
/// caller terminates that process — and leaves the slot empty, so a second
/// stop takes nothing: the handle is surrendered exactly once and never
/// left stored but unreachable.
pub proof fn lemma_start_then_stop_surrenders_handle<H>(state: Option<H>, handle: H)
    ensures
        stop_taken(start_next(state, handle)) == Some(handle),
        stop_next(start_next(state, handle)) is None,
        stop_taken(stop_next(start_next(state, handle))) is None,
{
}

} // verus!
