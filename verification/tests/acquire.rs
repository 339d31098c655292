//! Sequential behaviour of the spin mutex: acquisition, guard scoping,
//! the settling of attempt outcomes, and the absence of spurious
//! poisoning.

use spin_mutex::Acquisition;
use spin_mutex::Attempt;
use spin_mutex::Poisoned;
use spin_mutex::SpinMutex;
use spin_mutex::SpinStep;
use spin_mutex::settle_acquisition;
use spin_mutex::settle_attempt;

#[test]
fn new_mutex_grants_cleanly() {
    let m = SpinMutex::new(41u64);
    let g = m.lock_spin().0.expect("spin budget exhausted").expect("not poisoned");
    assert_eq!(*g, 41);
}

#[test]
fn guard_gives_exclusive_mutable_access() {
    let m = SpinMutex::new(10u64);
    {
        let mut g = m.lock_blocking().0.expect("not poisoned");
        *g += 5;
    }
    let g = m.lock_spin().0.expect("spin budget exhausted").expect("not poisoned");
    assert_eq!(*g, 15);
}

#[test]
fn drop_makes_lock_immediately_available() {
    let m = SpinMutex::new(5i32);
    let g = m.lock_spin().0.expect("spin budget exhausted").expect("not poisoned");
    assert_eq!(*g, 5);
    drop(g);
    let g2 = m.lock_blocking().0.expect("not poisoned");
    assert_eq!(*g2, 5);
    drop(g2);
    let g3 = m.lock_spin().0.expect("spin budget exhausted").expect("not poisoned");
    assert_eq!(*g3, 5);
}

#[test]
fn thousand_normal_cycles_never_poison() {
    let m = SpinMutex::new(0u64);
    let mut poisoned_seen: u64 = 0;
    for i in 0..1000u64 {
        if i % 2 == 0 {
            match m.lock_spin().0.expect("spin budget exhausted") {
                Ok(mut g) => *g += 1,
                Err(_) => poisoned_seen += 1,
            }
        } else {
            match m.lock_blocking().0 {
                Ok(mut g) => *g += 1,
                Err(_) => poisoned_seen += 1,
            }
        }
    }
    assert_eq!(poisoned_seen, 0);
    assert_eq!(*m.lock_blocking().0.expect("not poisoned"), 1000);
}

#[test]
fn settle_attempt_acquired_is_ok() {
    let m = SpinMutex::new(7u8);
    let g = m.lock_blocking().0.expect("not poisoned");
    match settle_attempt(Attempt::Acquired(g)) {
        SpinStep::Done(Ok(guard)) => assert_eq!(*guard, 7),
        _ => panic!("a clean grant must settle the acquisition as Ok"),
    };
}

#[test]
fn settle_attempt_would_block_retries() {
    assert!(matches!(settle_attempt(Attempt::<u8>::WouldBlock), SpinStep::Retry));
}

#[test]
fn settle_attempt_poisoned_settles_as_err() {
    let m = SpinMutex::new(9u8);
    let g = m.lock_blocking().0.expect("not poisoned");
    match settle_attempt(Attempt::Poisoned(g)) {
        SpinStep::Done(Err(report)) => assert_eq!(*report.into_guard(), 9),
        _ => panic!("reported poisoning must settle the acquisition as Err, not be retried"),
    };
}

#[test]
fn settle_acquisition_clean_is_ok() {
    let m = SpinMutex::new(1u16);
    let g = m.lock_blocking().0.expect("not poisoned");
    match settle_acquisition(Acquisition::Clean(g)) {
        Ok(guard) => assert_eq!(*guard, 1),
        Err(_) => panic!("a clean grant must come back as Ok"),
    };
}

#[test]
fn settle_acquisition_poisoned_is_err() {
    let m = SpinMutex::new(2u16);
    let g = m.lock_blocking().0.expect("not poisoned");
    match settle_acquisition(Acquisition::Poisoned(g)) {
        Ok(_) => panic!("reported poisoning must not be swallowed"),
        Err(report) => assert_eq!(*report.guard, 2),
    };
}

#[test]
fn into_guard_hands_back_the_granted_guard() {
    let m = SpinMutex::new(3u32);
    let g = m.lock_blocking().0.expect("not poisoned");
    let report = Poisoned { guard: g };
    assert_eq!(*report.into_guard(), 3);
}
