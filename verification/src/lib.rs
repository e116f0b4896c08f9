//! A simple spinlock.
//!
//! This is a simple spinlock. It is not a fair lock, and it does not provide
//! any way to sleep the current thread if the lock is not available.

use vstd::pervasive::arbitrary;
use vstd::prelude::*;

mod raw;

verus! {

/// A simple spinlock type.
///
/// The protected value is reachable only through a [`Guard`], and at most one
/// guard is live per lock at any time; that exclusion is enforced by the
/// atomic flag inside [`atomiclock::AtomicLock`].
#[derive(Debug)]
#[verifier::reject_recursive_types(T)]
pub struct Lock<T> {
    inner: atomiclock::AtomicLock<T>,
}

/// A guard that provides access to the data in the lock.
///
/// The guard is proof that its lock is held: it is produced only by a
/// successful acquisition, and dropping it releases the lock, exactly once,
/// on every exit path. Its view (`guard@`) is the protected value, which the
/// holder alone can read and write while the guard lives.
#[must_use]
#[verifier::reject_recursive_types(T)]
pub struct Guard<'a, T> {
    pub(crate) inner: atomiclock::Guard<'a, T>,
    pub(crate) current: Ghost<T>,
}

impl<'a, T> View for Guard<'a, T> {
    type V = T;

    closed spec fn view(&self) -> T {
        self.current@
    }
}

impl<'a, T> Guard<'a, T> {
    /// Read access to the protected value.
    pub fn as_ref(&self) -> (r: &T)
        ensures
            *r == self@,
    {
        raw::guard_read(self)
    }

    /// Write access to the protected value: the value left behind the
    /// returned reference is the value the lock protects from then on.
    pub fn get_mut(&mut self) -> (r: &mut T)
        ensures
            *r == old(self)@,
            final(self)@ == *final(r),
    {
        raw::guard_write(self)
    }

    /// Write access to the protected value; the same access as [`Self::get_mut`].
    pub fn as_mut(&mut self) -> (r: &mut T)
        ensures
            *r == old(self)@,
            final(self)@ == *final(r),
    {
        raw::guard_write(self)
    }
}

/// Opens the scoped telemetry interval that reports time spent spinning; it
/// ends, and reports, when the returned handle drops.
fn begin_contention_interval() -> logwise::interval::PerfwarnInterval {
    let record = logwise::hidden::perfwarn_begin_pre("spinlock", 0, 0);
    logwise::hidden::perfwarn_begin_post(
        record,
        "spin_lock_warn is spinning; investigate ways to reduce contention",
    )
}

impl<T> Lock<T> {
    /// Creates a new lock protecting `data`.
    pub fn new(data: T) -> Lock<T> {
        Lock { inner: atomiclock::AtomicLock::new(data) }
    }

    /// Spins until the lock can be acquired.
    ///
    /// Retries a single acquisition attempt in a tight loop with no bound and
    /// returns as soon as one succeeds. Under sustained contention this may
    /// spin indefinitely, and re-entrant acquisition from the context that
    /// already holds the lock deadlocks itself: the lock is not reentrant.
    pub fn spin_lock(&self) -> Guard<'_, T> {
        raw::spin_acquire(&self.inner)
    }

    /// Spins until the lock can be acquired, issuing a perfwarn if spinning
    /// were needed due to contention.
    ///
    /// If the very first attempt succeeds, no telemetry interval is ever
    /// opened. Otherwise one interval is opened, on the first failed attempt,
    /// and closed exactly once, at the moment a guard is finally obtained:
    /// the only exit from the retry is success, since this variant has no
    /// timeout.
    pub fn spin_lock_warn(&self) -> Guard<'_, T> {
        match raw::try_acquire(&self.inner) {
            Some(guard) => guard,
            None => {
                let _warn = begin_contention_interval();
                let guard = raw::spin_acquire(&self.inner);
                // `_warn` drops here: the interval ends with the acquisition.
                guard
            },
        }
    }

    /// Spins until the lock is available, or times out.
    ///
    /// The current time is compared against `deadline` before each
    /// acquisition attempt; once the deadline has passed, nothing is returned
    /// and the lock state is untouched. A deadline-exceeded return is
    /// indistinguishable at the type level from [`Self::try_lock`]'s
    /// contended-now return, but means "gave up", not "one probe failed".
    pub fn spin_lock_until(&self, deadline: std::time::Instant) -> Option<Guard<'_, T>> {
        raw::spin_acquire_until(&self.inner, deadline)
    }

    /// No spin; provides access to the data if the lock is available.
    ///
    /// Exactly one acquisition attempt is made, and the call returns
    /// immediately either way: a guard if the lock was free, nothing if it
    /// was already held. Contention is not an error, just the absence of a
    /// guard; the caller decides whether to retry, wait, or give up.
    pub fn try_lock(&self) -> Option<Guard<'_, T>> {
        raw::try_acquire(&self.inner)
    }

    /// Consumes the lock and returns the inner data.
    ///
    /// No locking is performed: taking the lock by value means no guard can
    /// be outstanding.
    pub fn into_inner(self) -> T {
        let Lock { inner } = self;
        inner.into_inner()
    }
}

// Boilerplate: a lock can be built from a bare value or from a default one,
// and a guard from a lock reference. Locks are not Clone, so not Copy, Eq,
// Ord or Hash; guards are a transient capability, so none of those either.

impl<T: Default> Default for Lock<T> {
    /// Creates a lock protecting `T`'s default value.
    fn default() -> Lock<T> {
        Lock::new(T::default())
    }
}

impl<T> From<T> for Lock<T> {
    /// Creates a lock protecting `data`; the same as [`Lock::new`].
    fn from(data: T) -> Lock<T> {
        Lock::new(data)
    }
}

impl<T> vstd::std_specs::convert::FromSpecImpl<T> for Lock<T> {
    open spec fn obeys_from_spec() -> bool {
        // A lock has no spec-level value to pin `from` down to: the protected
        // value is reachable only through a guard.
        false
    }

    open spec fn from_spec(data: T) -> Lock<T> {
        arbitrary()
    }
}

impl<'a, T> From<&'a Lock<T>> for Guard<'a, T> {
    /// Implements From by spinning until the lock is acquired.
    fn from(lock: &'a Lock<T>) -> Guard<'a, T> {
        lock.spin_lock()
    }
}

impl<'a, T> vstd::std_specs::convert::FromSpecImpl<&'a Lock<T>> for Guard<'a, T> {
    open spec fn obeys_from_spec() -> bool {
        // Which value the guard finds depends on concurrent holders, so
        // `from` cannot be pinned to a spec-level function of the lock.
        false
    }

    open spec fn from_spec(lock: &'a Lock<T>) -> Guard<'a, T> {
        arbitrary()
    }
}

} // verus!
