use sharedlock_rs::Error;
use sharedlock_rs::SharedLock;

#[test]
fn test_dead_lock() {
    let lock = SharedLock::new(0);
    let guard1 = lock.write();
    assert!(guard1.is_ok());

    let guard2 = lock.write();
    assert!(guard2.is_err());
}

#[test]
fn test_lock_busy() {
    let lock = SharedLock::new(0);
    let wg = lock.write();
    assert!(wg.is_ok());

    let rg = lock.read();
    assert!(rg.is_err());
}

#[test]
fn test_common() {
    let lock = SharedLock::new(5);

    {
        let r1 = lock.read().unwrap();
        let r2 = lock.read().unwrap();
        assert_eq!(r1.value(), 5);
        assert_eq!(r2.value(), 5);
    }

    {
        let mut w = lock.write().unwrap();
        w.set_value(w.value() + 1);
        assert_eq!(w.value(), 6);
    }
}

#[test]
fn test_write_read_write_round() {
    let lock = SharedLock::new(0);

    {
        let mut w = lock.write().unwrap();
        w.set_value(w.value() + 1);
    }

    {
        let r1 = lock.read().unwrap();
        let r2 = lock.read().unwrap();
        assert_eq!(r1.value(), 1);
        assert_eq!(r2.value(), 1);
    }

    {
        let mut w = lock.write().unwrap();
        w.set_value(w.value() + 1);
    }

    let r = lock.read().unwrap();
    assert_eq!(r.value(), 2);
}

#[test]
fn test_self_deadlock_is_reported_not_hung() {
    let lock = SharedLock::new(7u64);
    let w = lock.write().unwrap();

    let again = lock.write();
    assert!(matches!(again, Err(Error::DeadLockError)));

    let r = lock.read();
    assert!(matches!(r, Err(Error::DeadLockError)));

    drop(w);
    let r = lock.read().unwrap();
    assert_eq!(r.value(), 7);
}

#[test]
fn test_release_restores_lock() {
    let lock = SharedLock::new(1);

    let w = lock.write().unwrap();
    drop(w);

    let w = lock.write().unwrap();
    drop(w);

    let r1 = lock.read().unwrap();
    let r2 = lock.read().unwrap();
    assert_eq!(r1.value(), 1);
    assert_eq!(r2.value(), 1);
    drop(r1);
    drop(r2);

    let w = lock.write().unwrap();
    assert_eq!(w.value(), 1);
}

#[test]
fn test_write_back_happens_on_release_only() {
    let lock = SharedLock::new(3);

    {
        let mut w = lock.write().unwrap();
        w.set_value(42);
        assert_eq!(w.value(), 42);
    }

    let r = lock.read().unwrap();
    assert_eq!(r.value(), 42);
}

#[test]
fn test_error_messages() {
    assert_eq!(Error::DeadLockError.message(), "DeadLock");
    assert_eq!(Error::Poisoned.message(), "Poisoned");
}

#[test]
fn test_read_guards_snapshot_under_shared_access() {
    let lock = SharedLock::new(-9i32);
    let r1 = lock.read().unwrap();
    let r2 = lock.read().unwrap();
    let r3 = lock.read().unwrap();
    assert_eq!(r1.value(), -9);
    assert_eq!(r2.value(), -9);
    assert_eq!(r3.value(), -9);
}
