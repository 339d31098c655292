//! Ghost model of the lock's observable protocol.
//!
//! A mutex instance is modelled by a [`LockState`]: whether some guard is
//! currently live (`held`) and whether a past holder failed to complete its
//! critical section normally (`poisoned`).  Acquisition attempts and guard
//! drops are the events that drive the state, and [`attempt_of`] says which
//! outcome an immediate acquisition attempt reports in a given state.
//!
//! The laws proved here are the properties the executable lock is designed
//! around: a held lock grants no second guard, poisoning is permanent and
//! reported to every later acquirer, a normal release never poisons, and a
//! release makes the lock immediately available again.

use vstd::prelude::*;

verus! {

/// The observable state of one mutex instance.
pub struct LockState {
    /// Some guard for this mutex is currently live.
    pub held: bool,
    /// A past holder dropped its guard while a panic was propagating.
    pub poisoned: bool,
}

/// The events that change a mutex's state.
pub enum Event {
    /// An immediate acquisition attempt (the substrate of both acquisition
    /// strategies); it grants exactly when the lock is not held.
    TryAcquire,
    /// The live guard is dropped at the normal end of a critical section.
    ReleaseNormal,
    /// The live guard is dropped while a panic is propagating.
    ReleaseAbort,
}

/// What one immediate acquisition attempt reports.
pub enum AttemptKind {
    /// The lock was free and not poisoned: a clean grant.
    Acquired,
    /// The lock is currently held: no grant, the caller may retry.
    WouldBlock,
    /// The lock was free but poisoned: the guard is granted anyway, and the
    /// poisoning is reported alongside it.
    Poisoned,
}

/// The outcome an immediate acquisition attempt reports in state `s`.
pub open spec fn attempt_of(s: LockState) -> AttemptKind {
    if s.held {
        AttemptKind::WouldBlock
    } else if s.poisoned {
        AttemptKind::Poisoned
    } else {
        AttemptKind::Acquired
    }
}

/// How one event transforms the state.
///
/// A granting attempt takes the lock; a refused attempt changes nothing.
/// Dropping the guard frees the lock, and poisons it exactly when a panic
/// was propagating at that moment.  Poisoning is never cleared.
pub open spec fn step(s: LockState, e: Event) -> LockState {
    match e {
        Event::TryAcquire => if s.held {
            s
        } else {
            LockState { held: true, poisoned: s.poisoned }
        },
        Event::ReleaseNormal => LockState { held: false, poisoned: s.poisoned },
        Event::ReleaseAbort => LockState { held: false, poisoned: true },
    }
}

/// The state after running a whole sequence of events from `s`.
pub open spec fn run(s: LockState, es: Seq<Event>) -> LockState
    decreases es.len(),
{
    if es.len() == 0 {
        s
    } else {
        run(step(s, es[0]), es.subrange(1, es.len() as int))
    }
}

/// The state just before event `i` of the trace is applied.
pub open spec fn state_at(s: LockState, es: Seq<Event>, i: int) -> LockState {
    run(s, es.take(i))
}

/// Event `i` of the trace is an acquisition attempt that grants a guard.
pub open spec fn grants_at(s: LockState, es: Seq<Event>, i: int) -> bool {
    es[i] is TryAcquire && !state_at(s, es, i).held
}

/// The event ends a critical section (normally or by panic).
pub open spec fn is_release(e: Event) -> bool {
    e is ReleaseNormal || e is ReleaseAbort
}

/// Running a trace extended by one event applies that event last.
pub proof fn lemma_run_snoc(s: LockState, es: Seq<Event>, e: Event)
    ensures
        run(s, es.push(e)) == step(run(s, es), e),
    decreases es.len(),
{
    if es.len() == 0 {
        let p = es.push(e);
        assert(p[0] == e);
        assert(p.subrange(1, p.len() as int) =~= Seq::<Event>::empty());
        assert(run(s, p) == run(step(s, p[0]), p.subrange(1, p.len() as int)));
        assert(run(step(s, e), Seq::<Event>::empty()) == step(s, e));
    } else {
        assert(es.push(e)[0] == es[0]);
        assert(es.push(e).subrange(1, es.push(e).len() as int) =~= es.subrange(
            1,
            es.len() as int,
        ).push(e));
        lemma_run_snoc(step(s, es[0]), es.subrange(1, es.len() as int), e);
    }
}

/// The state before event `i + 1` is the state before event `i` with event
/// `i` applied.
pub proof fn lemma_state_at_unfold(s: LockState, es: Seq<Event>, i: int)
    requires
        0 <= i < es.len(),
    ensures
        state_at(s, es, i + 1) == step(state_at(s, es, i), es[i]),
{
    assert(es.take(i + 1) =~= es.take(i).push(es[i]));
    lemma_run_snoc(s, es.take(i), es[i]);
}

/// While no release happens, a held lock stays held.
pub proof fn lemma_held_until_release(s: LockState, es: Seq<Event>, i: int, j: int)
    requires
        0 <= i <= j <= es.len(),
        state_at(s, es, i).held,
        forall|k: int| i <= k < j ==> !is_release(es[k]),
    ensures
        state_at(s, es, j).held,
    decreases j - i,
{
    if i < j {
        assert(!is_release(es[i]));
        lemma_state_at_unfold(s, es, i);
        lemma_held_until_release(s, es, i + 1, j);
    }
}

/// Mutual exclusion: between any two granting acquisitions of the same
/// mutex stands a release.  In other words, while one guard is live, no
/// second guard can be granted, whichever strategy the contenders use.
pub proof fn lemma_mutual_exclusion(s: LockState, es: Seq<Event>, i: int, j: int)
    requires
        0 <= i < j < es.len(),
        grants_at(s, es, i),
        grants_at(s, es, j),
    ensures
        exists|k: int| i < k < j && is_release(es[k]),
{
    if forall|k: int| i < k < j ==> !is_release(es[k]) {
        lemma_state_at_unfold(s, es, i);
        assert(state_at(s, es, i + 1).held);
        lemma_held_until_release(s, es, i + 1, j);
        assert(false);
    }
}

/// Poisoning is permanent and reported forever: whatever happens after a
/// lock is poisoned, it stays poisoned, and no later acquisition attempt
/// ever reports a clean grant again.
pub proof fn lemma_poison_is_sticky(s: LockState, es: Seq<Event>)
    requires
        s.poisoned,
    ensures
        run(s, es).poisoned,
        attempt_of(run(s, es)) !is Acquired,
    decreases es.len(),
{
    if es.len() > 0 {
        lemma_poison_is_sticky(step(s, es[0]), es.subrange(1, es.len() as int));
    }
}

/// A normal release never poisons: a trace that contains no aborting
/// release leaves an unpoisoned lock unpoisoned.
pub proof fn lemma_no_spurious_poisoning(s: LockState, es: Seq<Event>)
    requires
        !s.poisoned,
        forall|i: int| 0 <= i < es.len() ==> es[i] !is ReleaseAbort,
    ensures
        !run(s, es).poisoned,
    decreases es.len(),
{
    if es.len() > 0 {
        let tail = es.subrange(1, es.len() as int);
        assert(es[0] !is ReleaseAbort);
        assert(forall|i: int| 0 <= i < tail.len() ==> tail[i] !is ReleaseAbort);
        lemma_no_spurious_poisoning(step(s, es[0]), tail);
    }
}

/// Dropping the guard makes the lock immediately available: after any
/// release, the very next acquisition attempt is granted a guard (cleanly,
/// or with the poisoning reported).
pub proof fn lemma_release_reopens(s: LockState, e: Event)
    requires
        is_release(e),
    ensures
        !step(s, e).held,
        attempt_of(step(s, e)) !is WouldBlock,
{
}

/// The outcome of a spin acquisition that observes the attempt outcomes
/// `ks` in order: the first outcome that is not `WouldBlock` settles it,
/// and there is no outcome while every observed attempt would block.
pub open spec fn spin_outcome(ks: Seq<AttemptKind>) -> Option<AttemptKind>
    decreases ks.len(),
{
    if ks.len() == 0 {
        None
    } else if ks[0] !is WouldBlock {
        Some(ks[0])
    } else {
        spin_outcome(ks.subrange(1, ks.len() as int))
    }
}

/// A spinner succeeds exactly once the contention ends: while the
/// competing holder keeps the lock, every attempt would block and settles
/// nothing, and the first attempt that no longer blocks — the one after
/// the holder released — is the one that settles the acquisition.
pub proof fn lemma_spin_waits_out_contention(ks: Seq<AttemptKind>, w: int)
    requires
        0 <= w < ks.len(),
        forall|i: int| 0 <= i < w ==> ks[i] is WouldBlock,
        ks[w] !is WouldBlock,
    ensures
        spin_outcome(ks) == Some(ks[w]),
    decreases w,
{
    if w > 0 {
        let tail = ks.subrange(1, ks.len() as int);
        assert(forall|i: int| 0 <= i < w - 1 ==> tail[i] is WouldBlock);
        assert(tail[w - 1] == ks[w]);
        lemma_spin_waits_out_contention(tail, w - 1);
    }
}

/// A spinner never acquires during the contention window: while every
/// observed attempt would block, the spin settles nothing.
pub proof fn lemma_spin_starves_while_blocked(ks: Seq<AttemptKind>)
    requires
        forall|i: int| 0 <= i < ks.len() ==> ks[i] is WouldBlock,
    ensures
        spin_outcome(ks) is None,
    decreases ks.len(),
{
    if ks.len() > 0 {
        let tail = ks.subrange(1, ks.len() as int);
        assert(forall|i: int| 0 <= i < tail.len() ==> tail[i] is WouldBlock);
        lemma_spin_starves_while_blocked(tail);
    }
}

} // verus!
