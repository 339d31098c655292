//! The trusted boundary to the standard library's blocking mutex.
//!
//! The lock's state machine — at most one live guard, sticky poisoning —
//! is implemented by `std::sync::Mutex`; this module declares that type and
//! wraps the three calls the library makes into it.  Each wrapper converts
//! the outcome into one of the library's own tagged results, so that the
//! verified code above it can be exact about how it treats each outcome.
//! Which outcome an acquisition gets depends on what the other threads do
//! at that moment, so the wrappers promise nothing about the choice.

use vstd::prelude::*;

use crate::mutex::Acquisition;
use crate::mutex::Attempt;

verus! {

/// The standard library's mutex, declared so that it can stand in fields
/// and signatures; its values are opaque to the verifier.
#[verifier::external_type_specification]
#[verifier::external_body]
#[verifier::reject_recursive_types(T)]
pub struct ExMutex<T: ?Sized>(std::sync::Mutex<T>);

/// The standard library's mutex guard, declared so that it can stand in
/// fields and signatures; its values are opaque to the verifier.
#[verifier::external_type_specification]
#[verifier::external_body]
#[verifier::reject_recursive_types(T)]
pub struct ExMutexGuard<'a, T: ?Sized + 'a>(std::sync::MutexGuard<'a, T>);

/// Relies on `std::sync::Mutex::new`: wraps `value` in a fresh mutex that
/// is unlocked and not poisoned.
#[verifier::external_body]
pub(crate) fn mutex_new<T>(value: T) -> (m: std::sync::Mutex<T>) {
    std::sync::Mutex::new(value)
}

/// Relies on `std::sync::Mutex::try_lock`: it never blocks the calling
/// thread.  It grants the guard when the mutex was free, reports
/// contention while another guard is live, and reports poisoning — while
/// still granting the guard — when a prior holder panicked.  Which of the
/// three comes back depends on the other threads, so no clause pins the
/// choice down.
#[verifier::external_body]
pub(crate) fn mutex_try_lock<'a, T>(m: &'a std::sync::Mutex<T>) -> (a: Attempt<'a, T>) {
    match m.try_lock() {
        Ok(guard) => Attempt::Acquired(guard),
        Err(std::sync::TryLockError::WouldBlock) => Attempt::WouldBlock,
        Err(std::sync::TryLockError::Poisoned(err)) => Attempt::Poisoned(err.into_inner()),
    }
}

/// Relies on `std::sync::Mutex::lock`: it suspends the calling thread
/// until the mutex is free, then grants the guard, reporting poisoning —
/// while still granting the guard — when a prior holder panicked.  It may
/// never return if the holder never releases, and what happens when the
/// thread that already holds the lock calls it again is left unspecified
/// by std; both hazards are the caller's to avoid.
#[verifier::external_body]
pub(crate) fn mutex_lock<'a, T>(m: &'a std::sync::Mutex<T>) -> (a: Acquisition<'a, T>) {
    match m.lock() {
        Ok(guard) => Acquisition::Clean(guard),
        Err(err) => Acquisition::Poisoned(err.into_inner()),
    }
}

} // verus!
