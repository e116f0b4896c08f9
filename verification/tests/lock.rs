use std::time::{Duration, Instant};

use spinlock::{Guard, Lock};

#[test]
fn round_trip() {
    assert_eq!(Lock::new(0u64).into_inner(), 0u64);
    assert_eq!(Lock::new(17u64).into_inner(), 17u64);
    assert_eq!(Lock::new(u64::MAX).into_inner(), u64::MAX);
    assert_eq!(Lock::new(-5i32).into_inner(), -5i32);
    assert_eq!(
        Lock::new(String::from("protected")).into_inner(),
        String::from("protected")
    );
    assert_eq!(Lock::new(vec![1u8, 2, 3]).into_inner(), vec![1u8, 2, 3]);
}

#[test]
fn default_lock_protects_default_value() {
    let lock: Lock<u32> = Lock::default();
    assert_eq!(lock.into_inner(), 0u32);
}

#[test]
fn from_value() {
    let lock = Lock::from(29u16);
    assert_eq!(lock.into_inner(), 29u16);
}

#[test]
fn try_lock_on_free_lock_succeeds() {
    let lock = Lock::new(11u32);
    let guard = lock.try_lock();
    assert!(guard.is_some());
    assert_eq!(*guard.unwrap().as_ref(), 11u32);
}

#[test]
fn try_lock_on_held_lock_returns_nothing() {
    let lock = Lock::new(0u32);
    let guard = lock.try_lock().unwrap();
    // The lock is held: a single non-blocking probe must come back empty.
    assert!(lock.try_lock().is_none());
    assert!(lock.try_lock().is_none());
    drop(guard);
}

#[test]
fn guard_releases_exactly_once() {
    let lock = Lock::new(3u32);
    {
        let _guard = lock.spin_lock();
        assert!(lock.try_lock().is_none());
    }
    // The guard went out of scope, so a fresh probe succeeds immediately.
    let again = lock.try_lock();
    assert!(again.is_some());
    assert_eq!(*again.unwrap().as_ref(), 3u32);
}

#[test]
fn guard_handoff() {
    let lock = Lock::new(0u32);
    {
        let mut writer = lock.spin_lock();
        *writer.get_mut() = 1;
    }
    let reader = lock.spin_lock();
    assert_eq!(*reader.as_ref(), 1u32);
}

#[test]
fn as_mut_writes_are_visible_through_as_ref() {
    let lock = Lock::new(String::from("before"));
    let mut guard = lock.spin_lock();
    assert_eq!(guard.as_ref(), "before");
    *guard.as_mut() = String::from("after");
    assert_eq!(guard.as_ref(), "after");
    drop(guard);
    assert_eq!(lock.into_inner(), String::from("after"));
}

#[test]
fn guard_from_lock_reference_spins_until_acquired() {
    let lock = Lock::new(40u32);
    let mut guard = Guard::from(&lock);
    *guard.get_mut() += 2;
    assert_eq!(*guard.as_ref(), 42u32);
}

#[test]
fn spin_lock_until_on_free_lock_succeeds() {
    let lock = Lock::new(5u32);
    let deadline = Instant::now() + Duration::from_millis(200);
    let guard = lock.spin_lock_until(deadline);
    assert!(guard.is_some());
    assert_eq!(*guard.unwrap().as_ref(), 5u32);
}

#[test]
fn spin_lock_until_respects_the_deadline() {
    let lock = Lock::new(0u32);
    let held = lock.spin_lock();
    let wait = Duration::from_millis(50);
    let begin = Instant::now();
    let attempt = lock.spin_lock_until(begin + wait);
    let elapsed = begin.elapsed();
    // The lock is held for the whole call, so it must give up, and not
    // before the deadline has passed.
    assert!(attempt.is_none());
    assert!(elapsed >= wait);
    // Giving up has no side effect on the lock state: release still works.
    drop(held);
    assert!(lock.try_lock().is_some());
}

#[test]
fn spin_lock_until_with_past_deadline_returns_nothing() {
    let lock = Lock::new(0u32);
    let _held = lock.spin_lock();
    let deadline = Instant::now() - Duration::from_millis(1);
    assert!(lock.spin_lock_until(deadline).is_none());
}

#[test]
fn spin_lock_warn_without_contention_acquires_silently() {
    // A first attempt that succeeds opens no telemetry interval; the call
    // behaves exactly like spin_lock.
    let lock = Lock::new(7u32);
    let mut guard = lock.spin_lock_warn();
    assert_eq!(*guard.as_ref(), 7u32);
    *guard.get_mut() = 8;
    drop(guard);
    assert_eq!(lock.into_inner(), 8u32);
}
