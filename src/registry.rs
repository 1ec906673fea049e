//! The per-process event registry: an append-only sequence of records whose
//! growth is fallible, and a lock-guarded handle on it that any thread of the
//! process may use.

use crate::error::RegisterError;
use crate::event::Event;
use std::collections::TryReserveError;
use vstd::prelude::*;
use vstd::rwlock::{RwLock, RwLockPredicate};

verus! {

/// Relies on `Vec::try_reserve_exact`: asks for room for `additional` more
/// elements and reports failure instead of aborting; the elements are left
/// as they were in either case.
#[verifier::external_body]
fn try_reserve_exact(v: &mut Vec<Event>, additional: usize) -> (r: Result<(), TryReserveError>)
    ensures
        final(v)@ == old(v)@,
{
    v.try_reserve_exact(additional)
}

/// The records of one process, in the order in which they were registered.
pub struct EventLog {
    events: Vec<Event>,
}

impl View for EventLog {
    type V = Seq<Event>;

    closed spec fn view(&self) -> Seq<Event> {
        self.events@
    }
}

impl EventLog {
    /// An empty log.
    pub fn new() -> (r: EventLog)
        ensures
            r@ == Seq::<Event>::empty(),
    {
        EventLog { events: Vec::new() }
    }

    /// Number of records held.
    pub fn len(&self) -> (r: usize)
        ensures
            r == self@.len(),
    {
        self.events.len()
    }

    /// The records held, in registration order.
    pub fn events(&self) -> (r: &Vec<Event>)
        ensures
            r@ == self@,
    {
        &self.events
    }

    /// Appends `e`, first asking for room for `reservation_for` of the
    /// current length more records. A refused reservation leaves the log as it
    /// was and is reported as `OutOfMemory`.
    pub fn register(&mut self, e: Event) -> (r: Result<(), RegisterError>)
        ensures
            r is Ok ==> final(self)@ == old(self)@.push(e),
            r is Err ==> final(self)@ == old(self)@,
    {
        let additional = reservation_for(self.events.len());
        let reservation = try_reserve_exact(&mut self.events, additional);
        self.append_reserved(reservation, e)
    }

    /// Completes a registration once the reservation's outcome is known:
    /// appends `e` after a granted one, and leaves the log untouched after a
    /// refused one, whose report it passes on.
    pub fn append_reserved(&mut self, reservation: Result<(), TryReserveError>, e: Event) -> (r:
        Result<(), RegisterError>)
        ensures
            reservation is Ok ==> r is Ok && final(self)@ == old(self)@.push(e),
            reservation is Err ==> r == Err::<(), RegisterError>(
                RegisterError::OutOfMemory(reservation->Err_0),
            ) && final(self)@ == old(self)@,
    {
        match reservation {
            Ok(()) => {
                self.events.push(e);
                Ok(())
            },
            Err(cause) => Err(RegisterError::OutOfMemory(cause)),
        }
    }
}

/// How many more records a log of `len` records asks room for before an
/// append: twice its length, or as many as can be counted when that
/// overflows (a request that the allocator always refuses).
pub fn reservation_for(len: usize) -> (r: usize)
    ensures
        r == (if len <= usize::MAX / 2 {
            2 * len
        } else {
            usize::MAX as int
        }),
{
    if len <= usize::MAX / 2 {
        2 * len
    } else {
        usize::MAX
    }
}

/// The lock's invariant: every log value may be stored.
pub struct AnyLog;

impl RwLockPredicate<EventLog> for AnyLog {
    open spec fn inv(self, v: EventLog) -> bool {
        true
    }
}

/// The process-wide registry: an `EventLog` behind an exclusive lock, so that
/// concurrent threads never lose each other's records.
pub struct Trace {
    pub(crate) lock: RwLock<EventLog, AnyLog>,
}

impl Trace {
    /// A registry with no records.
    pub fn new() -> (r: Trace) {
        Trace { lock: RwLock::new(EventLog::new(), Ghost(AnyLog)) }
    }

    /// Appends `e` while holding the lock; the only work done under it is the
    /// reservation and the push.
    pub fn register(&self, e: Event) -> (r: Result<(), RegisterError>) {
        let (mut log, handle) = self.lock.acquire_write();
        let r = log.register(e);
        handle.release_write(log);
        r
    }

    /// A copy of the records registered so far, taken under the lock.
    pub fn snapshot(&self) -> (r: Vec<Event>) {
        let (log, handle) = self.lock.acquire_write();
        let copy = copy_events(log.events());
        handle.release_write(log);
        copy
    }
}

/// An element-by-element copy of `v`.
pub fn copy_events(v: &Vec<Event>) -> (r: Vec<Event>)
    ensures
        r@ == v@,
{
    let mut out: Vec<Event> = Vec::with_capacity(v.len());
    let mut i: usize = 0;
    while i < v.len()
        invariant
            i <= v@.len(),
            out@ == v@.subrange(0, i as int),
        decreases v@.len() - i,
    {
        out.push(v[i]);
        i = i + 1;
    }
    out
}

} // verus!
