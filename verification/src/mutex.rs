//! The spin mutex and its two acquisition strategies.
//!
//! [`SpinMutex`] owns one value and grants scoped, exclusive access to it
//! through a guard.  [`SpinMutex::lock_blocking`] delegates to the
//! underlying blocking acquisition and may suspend the calling thread;
//! [`SpinMutex::lock_spin`] never suspends: it retries the immediate,
//! non-blocking attempt in a tight loop — no sleep, no yield, no backoff —
//! until the attempt no longer reports contention.  Since every loop here
//! is proved to terminate, the retry loop carries an explicit attempt
//! budget of `u64::MAX`; a spin reports exhaustion only after that many
//! consecutive contended attempts, in place of retrying forever.
//!
//! Both strategies surface poisoning the same way: a poisoned mutex still
//! grants its guard, wrapped in [`Poisoned`], and it is the caller's
//! choice whether to trust the value.  Poisoning is never a reason to
//! retry — it is permanent — so the spinner settles on it at once.

use vstd::prelude::*;

use crate::protocol::AttemptKind;
use crate::protocol::lemma_spin_starves_while_blocked;
use crate::protocol::lemma_spin_waits_out_contention;
use crate::protocol::spin_outcome;
use crate::raw;

verus! {

/// A guard: for as long as it lives, its holder is the sole owner of
/// access to the protected value, and dropping it releases the lock.
/// Dropping it while a panic is propagating poisons the mutex.
pub type Guard<'a, T> = std::sync::MutexGuard<'a, T>;

/// The poisoning report: a prior holder's critical section was ended by a
/// panic.  The guard is granted all the same — exclusivity still holds —
/// and the caller decides whether to trust or repair the value.
#[derive(Debug)]
pub struct Poisoned<G> {
    /// The granted guard.
    pub guard: G,
}

/// What one immediate, non-blocking acquisition attempt reports.
#[verifier::reject_recursive_types(T)]
pub enum Attempt<'a, T> {
    /// The mutex was free and unpoisoned: a clean grant.
    Acquired(Guard<'a, T>),
    /// Another guard is live: no grant, the caller may retry.
    WouldBlock,
    /// The mutex was free but poisoned: the guard is granted anyway.
    Poisoned(Guard<'a, T>),
}

/// What a blocking acquisition reports once the wait is over.
#[verifier::reject_recursive_types(T)]
pub enum Acquisition<'a, T> {
    /// The mutex was unpoisoned: a clean grant.
    Clean(Guard<'a, T>),
    /// The mutex was poisoned: the guard is granted anyway.
    Poisoned(Guard<'a, T>),
}

/// One step of a spin acquisition: either the attempt settled it, or the
/// attempt reported contention and the spinner retries.
#[verifier::reject_recursive_types(T)]
pub enum SpinStep<'a, T> {
    /// The acquisition is settled with this result.
    Done(Result<Guard<'a, T>, Poisoned<Guard<'a, T>>>),
    /// The attempt would block; retry immediately.
    Retry,
}

/// The kind of an attempt outcome, with the guard forgotten.
pub open spec fn kind<'a, T>(a: Attempt<'a, T>) -> AttemptKind {
    match a {
        Attempt::Acquired(_) => AttemptKind::Acquired,
        Attempt::WouldBlock => AttemptKind::WouldBlock,
        Attempt::Poisoned(_) => AttemptKind::Poisoned,
    }
}

/// The attempt kind a settled acquisition reports: a clean grant for
/// `Ok`, reported poisoning for `Err`.
pub open spec fn settled_kind<'a, T>(
    r: Result<Guard<'a, T>, Poisoned<Guard<'a, T>>>,
) -> AttemptKind {
    match r {
        Ok(_) => AttemptKind::Acquired,
        Err(_) => AttemptKind::Poisoned,
    }
}

/// How many consecutive contended attempts a spin acquisition makes
/// before it reports exhaustion instead of retrying further.
pub const SPIN_BUDGET: u64 = u64::MAX;

/// How a finished spin acquisition relates to the sequence `ks` of attempt
/// outcomes it observed: a settled result is the first outcome that did
/// not block — never one from inside the contention window — and
/// exhaustion means the whole budget was spent on attempts that all
/// blocked.
pub open spec fn spin_run_yields<'a, T>(
    ks: Seq<AttemptKind>,
    r: Option<Result<Guard<'a, T>, Poisoned<Guard<'a, T>>>>,
) -> bool {
    match r {
        Some(res) => ks.len() <= SPIN_BUDGET && spin_outcome(ks) == Some(settled_kind(res)),
        None => ks.len() == SPIN_BUDGET && spin_outcome(ks) is None,
    }
}

/// Settle one immediate attempt: a grant settles the acquisition as `Ok`,
/// reported poisoning settles it as `Err` at once — poisoning is permanent,
/// so retrying would spin forever — and only contention is retried.
pub fn settle_attempt<'a, T>(a: Attempt<'a, T>) -> (r: SpinStep<'a, T>)
    ensures
        a matches Attempt::Acquired(g) ==> r == SpinStep::Done(
            Result::<Guard<'a, T>, Poisoned<Guard<'a, T>>>::Ok(g),
        ),
        a is WouldBlock ==> r is Retry,
        a matches Attempt::Poisoned(g) ==> r == SpinStep::Done(
            Result::<Guard<'a, T>, Poisoned<Guard<'a, T>>>::Err((Poisoned { guard: g })),
        ),
{
    match a {
        Attempt::Acquired(g) => SpinStep::Done(Ok(g)),
        Attempt::WouldBlock => SpinStep::Retry,
        Attempt::Poisoned(g) => SpinStep::Done(Err(Poisoned { guard: g })),
    }
}

/// Settle a blocking acquisition: a clean grant becomes `Ok`, reported
/// poisoning becomes `Err`; nothing is retried and nothing is swallowed.
pub fn settle_acquisition<'a, T>(a: Acquisition<'a, T>) -> (r: Result<
    Guard<'a, T>,
    Poisoned<Guard<'a, T>>,
>)
    ensures
        a matches Acquisition::Clean(g) ==> r == Result::<
            Guard<'a, T>,
            Poisoned<Guard<'a, T>>,
        >::Ok(g),
        a matches Acquisition::Poisoned(g) ==> r == Result::<
            Guard<'a, T>,
            Poisoned<Guard<'a, T>>,
        >::Err((Poisoned { guard: g })),
{
    match a {
        Acquisition::Clean(g) => Ok(g),
        Acquisition::Poisoned(g) => Err(Poisoned { guard: g }),
    }
}

/// An exclusive-access wrapper around one value of type `T`.
///
/// The value is owned by the mutex; callers reach it only through the
/// guard that an acquisition grants, and at most one guard is live at any
/// time.  Acquisition order among contending threads is unspecified —
/// there is no queueing and no fairness — and nested acquisition from the
/// thread that already holds the guard is a documented hazard: it
/// deadlocks under `lock_blocking` and spins the budget out under
/// `lock_spin`.
#[verifier::reject_recursive_types(T)]
pub struct SpinMutex<T> {
    inner: std::sync::Mutex<T>,
}

impl<T> SpinMutex<T> {
    /// Creates the mutex owning `value`, unlocked and not poisoned.
    pub fn new(value: T) -> SpinMutex<T> {
        SpinMutex { inner: raw::mutex_new(value) }
    }

    /// Acquires the lock, suspending the calling thread until it is
    /// available.  Must not be called from a context in which a blocking
    /// wait is illegal; use [`Self::lock_spin`] there.  A poisoned mutex
    /// still grants its guard, in the `Err` variant.
    ///
    /// Beside the result stands, as a ghost value, the acquisition outcome
    /// the blocking substrate reported; the contract says the result is
    /// exactly its settlement — the very guard granted, `Ok` for a clean
    /// grant and `Err` exactly when poisoning was reported, never
    /// swallowed.
    pub fn lock_blocking<'a>(&'a self) -> (r: (
        Result<Guard<'a, T>, Poisoned<Guard<'a, T>>>,
        Ghost<Acquisition<'a, T>>,
    ))
        ensures
            r.1@ matches Acquisition::Clean(g) ==> r.0 == Result::<
                Guard<'a, T>,
                Poisoned<Guard<'a, T>>,
            >::Ok(g),
            r.1@ matches Acquisition::Poisoned(g) ==> r.0 == Result::<
                Guard<'a, T>,
                Poisoned<Guard<'a, T>>,
            >::Err((Poisoned { guard: g })),
    {
        let acquisition = raw::mutex_lock(&self.inner);
        let ghost outcome = acquisition;
        (settle_acquisition(acquisition), Ghost(outcome))
    }

    /// Acquires the lock without ever invoking a blocking wait: the
    /// immediate attempt is retried in a tight loop — no sleep, no yield,
    /// no backoff — while it reports contention.  The first attempt that
    /// does not block settles the call: `Some(Ok(guard))` for a clean
    /// grant, `Some(Err(..))` for a grant from a poisoned mutex.  `None`
    /// is returned only when all [`SPIN_BUDGET`] consecutive attempts
    /// blocked, in place of retrying forever.
    ///
    /// Beside the result stands, as a ghost value, the sequence of attempt
    /// outcomes this spin observed, and the contract ties the result to
    /// it: every observed attempt before the last blocked, a settled
    /// result is the settlement of the first attempt that did not, and
    /// `None` comes only from a whole budget of attempts that all blocked.
    pub fn lock_spin<'a>(&'a self) -> (r: (
        Option<Result<Guard<'a, T>, Poisoned<Guard<'a, T>>>>,
        Ghost<Seq<AttemptKind>>,
    ))
        ensures
            spin_run_yields(r.1@, r.0),
            forall|i: int| 0 <= i < r.1@.len() - 1 ==> r.1@[i] is WouldBlock,
    {
        let mut budget: u64 = SPIN_BUDGET;
        let ghost mut observed: Seq<AttemptKind> = Seq::empty();
        loop
            invariant
                budget <= SPIN_BUDGET,
                observed.len() == SPIN_BUDGET - budget,
                forall|i: int| 0 <= i < observed.len() ==> observed[i] is WouldBlock,
            decreases budget,
        {
            if budget == 0 {
                proof {
                    lemma_spin_starves_while_blocked(observed);
                }
                return (None, Ghost(observed));
            }
            budget = budget - 1;
            let attempt = raw::mutex_try_lock(&self.inner);
            let ghost k = kind(attempt);
            match settle_attempt(attempt) {
                SpinStep::Done(res) => {
                    proof {
                        let ks = observed.push(k);
                        assert(ks[observed.len() as int] == k);
                        assert(k !is WouldBlock);
                        assert(settled_kind(res) == k);
                        lemma_spin_waits_out_contention(ks, observed.len() as int);
                        assert(forall|i: int| 0 <= i < ks.len() - 1 ==> ks[i] is WouldBlock);
                    }
                    return (Some(res), Ghost(observed.push(k)));
                }
                SpinStep::Retry => {
                    proof {
                        observed = observed.push(k);
                    }
                }
            }
        }
    }
}

impl<G> Poisoned<G> {
    /// Takes the guard out of the poisoning report; the access it grants
    /// is as exclusive as any other guard's.
    pub fn into_guard(self) -> (g: G)
        ensures
            g == self.guard,
    {
        self.guard
    }
}

} // verus!
