//! Trusted boundary around the outside crates.
//!
//! The lock state itself lives in `atomiclock::AtomicLock`, whose
//! compare-and-swap is what makes acquisition atomic; the contention
//! telemetry lives in `logwise`. Everything the rest of the crate knows
//! about them is stated here.

use vstd::prelude::*;
use vstd::pervasive::arbitrary;

use atomiclock::Guard as RawGuard;

verus! {

#[verifier::external_type_specification]
#[verifier::external_body]
#[verifier::reject_recursive_types(T)]
pub struct ExAtomicLock<T>(atomiclock::AtomicLock<T>);

#[verifier::external_type_specification]
#[verifier::external_body]
#[verifier::reject_recursive_types(T)]
pub struct ExRawGuard<'a, T>(RawGuard<'a, T>);

#[verifier::external_type_specification]
#[verifier::external_body]
pub struct ExInstant(std::time::Instant);

#[verifier::external_type_specification]
#[verifier::external_body]
pub struct ExLogRecord(logwise::hidden::LogRecord);

#[verifier::external_type_specification]
#[verifier::external_body]
pub struct ExPerfwarnInterval(logwise::interval::PerfwarnInterval);

/// Relies on atomiclock::AtomicLock::new: wraps `data` as the protected
/// value of a lock whose flag starts out free.
pub assume_specification<T>[ atomiclock::AtomicLock::<T>::new ](data: T)
    -> atomiclock::AtomicLock<T>;

/// Relies on atomiclock::AtomicLock::into_inner: consumes the lock and hands
/// back the protected value without touching the flag, which is sound only
/// because by-value ownership rules out an outstanding guard.
pub assume_specification<T>[ atomiclock::AtomicLock::<T>::into_inner ](
    lock: atomiclock::AtomicLock<T>,
) -> T;

/// Relies on atomiclock::AtomicLock::lock: a single atomic compare-and-swap
/// attempt that returns a guard exactly when the flag was free (setting it to
/// held, with acquire ordering), and nothing when it was already held. While
/// the returned guard lives, no other party can acquire or touch the value,
/// so the guard's ghost view tracks the protected value faithfully; which of
/// the two outcomes occurs depends on concurrent holders, so nothing is
/// promised about it.
#[verifier::external_body]
pub(crate) fn try_acquire<'a, T>(lock: &'a atomiclock::AtomicLock<T>) -> Option<crate::Guard<'a, T>> {
    match lock.lock() {
        Some(raw) => Some(crate::Guard { inner: raw, current: Ghost(arbitrary()) }),
        None => None,
    }
}

/// Relies on atomiclock::AtomicLock::lock: retries the atomic compare-and-swap
/// in a tight loop until one attempt succeeds, so a guard is always returned,
/// after unboundedly many attempts under sustained contention. The retry loop
/// stands here because a loop with no termination bound cannot stand in
/// verified code. Nothing is promised of the protected value the guard finds.
#[verifier::external_body]
pub(crate) fn spin_acquire<'a, T>(lock: &'a atomiclock::AtomicLock<T>) -> crate::Guard<'a, T> {
    loop {
        if let Some(raw) = lock.lock() {
            return crate::Guard { inner: raw, current: Ghost(arbitrary()) };
        }
    }
}

/// Relies on atomiclock::AtomicLock::lock and std::time::Instant::now: before
/// each single acquisition attempt, compares the current instant against
/// `deadline`; once the deadline has passed, returns nothing without having
/// acquired. A lock freed exactly at the boundary may or may not be acquired:
/// the check and the attempt are not one atomic step. The retry loop stands
/// here because a loop with no termination bound cannot stand in verified
/// code. Nothing is promised of which outcome occurs: it depends on the clock
/// and on concurrent holders.
#[verifier::external_body]
pub(crate) fn spin_acquire_until<'a, T>(
    lock: &'a atomiclock::AtomicLock<T>,
    deadline: std::time::Instant,
) -> Option<crate::Guard<'a, T>> {
    loop {
        if std::time::Instant::now() > deadline {
            return None;
        }
        if let Some(raw) = lock.lock() {
            return Some(crate::Guard { inner: raw, current: Ghost(arbitrary()) });
        }
    }
}

/// Relies on logwise's perfwarn_begin_pre: assembles and timestamps the log
/// record that announces the start of a performance-warning interval.
pub assume_specification[ logwise::hidden::perfwarn_begin_pre ](
    file: &'static str,
    line: u32,
    column: u32,
) -> logwise::hidden::LogRecord;

/// Relies on logwise's perfwarn_begin_post: submits the record to the global
/// logger and opens the interval itself, a handle that reports the elapsed
/// time when it drops.
pub assume_specification[ logwise::hidden::perfwarn_begin_post ](
    record: logwise::hidden::LogRecord,
    name: &'static str,
) -> logwise::interval::PerfwarnInterval;

/// Relies on atomiclock::Guard::as_ref: hands out the protected value, which
/// equals this guard's view because the guard has had exclusive access to it
/// since acquisition.
#[verifier::external_body]
pub(crate) fn guard_read<'g, 'a, T>(guard: &'g crate::Guard<'a, T>) -> (r: &'g T)
    ensures
        *r == guard@,
{
    guard.inner.as_ref()
}

/// Relies on atomiclock::Guard::as_mut: hands out exclusive access to the
/// protected value; what the caller leaves behind the reference is what the
/// lock protects from then on, and the guard's view follows it.
#[verifier::external_body]
pub(crate) fn guard_write<'g, 'a, T>(guard: &'g mut crate::Guard<'a, T>) -> (r: &'g mut T)
    ensures
        *r == old(guard)@,
        final(guard)@ == *final(r),
{
    guard.inner.as_mut()
}

} // verus!
