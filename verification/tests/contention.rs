//! Behaviour under contention and after a panicking holder: mutual
//! exclusion, poisoning propagation, and when a spinner may acquire.
//!
//! None of these tests asserts an acquisition order among waiters — the
//! lock is unfair by design — only exclusivity and eventual success.

use std::time::Duration;
use std::time::Instant;

use spin_mutex::SpinMutex;

#[test]
fn contended_increments_are_never_lost() {
    let threads: u64 = 4;
    let rounds: u64 = 1000;
    let m = SpinMutex::new(0u64);
    crossbeam_utils::thread::scope(|s| {
        for t in 0..threads {
            let m = &m;
            s.spawn(move |_| {
                for _ in 0..rounds {
                    if t % 2 == 0 {
                        let mut g = m.lock_spin().0.expect("spin budget exhausted").expect(
                            "not poisoned",
                        );
                        let read = *g;
                        *g = read + 1;
                    } else {
                        let mut g = m.lock_blocking().0.expect("not poisoned");
                        let read = *g;
                        *g = read + 1;
                    }
                }
            });
        }
    })
    .expect("no contender panicked");
    assert_eq!(*m.lock_blocking().0.expect("not poisoned"), threads * rounds);
}

#[test]
fn panic_while_holding_poisons_every_later_acquisition() {
    let m = SpinMutex::new(0u32);
    let aborted = crossbeam_utils::thread::scope(|s| {
        s.spawn(|_| {
            let _g = m.lock_blocking().0.expect("not poisoned");
            panic!("abort inside the critical section");
        });
    });
    assert!(aborted.is_err());
    for _ in 0..10 {
        assert!(m.lock_spin().0.expect("spin budget exhausted").is_err());
        assert!(m.lock_blocking().0.is_err());
    }
}

#[test]
fn spinner_acquires_only_after_the_holder_releases() {
    let hold = Duration::from_millis(50);
    let m = SpinMutex::new(false);
    let started = Instant::now();
    let mut g = m.lock_blocking().0.expect("not poisoned");
    crossbeam_utils::thread::scope(|s| {
        s.spawn(|_| {
            let seen = m.lock_spin().0.expect("spin budget exhausted").expect("not poisoned");
            assert!(*seen, "the spinner saw the lock before the holder released it");
            assert!(started.elapsed() >= hold);
        });
        while started.elapsed() < hold {
            std::hint::spin_loop();
        }
        *g = true;
        drop(g);
    })
    .expect("the spinner failed");
    assert!(started.elapsed() >= hold);
}
