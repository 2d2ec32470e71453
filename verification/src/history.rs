//! What holds of a lock over any course of events.
//!
//! A history is the sequence of holders that were admitted to a lock and
//! that left it, in the order in which the lock saw them. The laws here are
//! stated of every history that a lock can go through at all.

use crate::named_lock::{LockState, Mode};
use vstd::prelude::*;

verus! {

/// One event in the life of a lock.
pub ghost enum Op {
    /// A newcomer in the mode was admitted.
    Start(Mode),
    /// A holder in the mode left.
    End(Mode),
}

/// Whether the event can happen in state `s`.
pub open spec fn enabled(s: LockState, op: Op) -> bool {
    match op {
        Op::Start(mode) => s.admits(mode),
        Op::End(mode) => s.holds(mode),
    }
}

/// The state after the event.
pub open spec fn apply(s: LockState, op: Op) -> LockState {
    match op {
        Op::Start(mode) => s.acquire(mode),
        Op::End(mode) => s.release(mode),
    }
}

/// The state after all of `ops`, taken in order from `s`.
pub open spec fn after(s: LockState, ops: Seq<Op>) -> LockState
    decreases ops.len(),
{
    if ops.len() == 0 {
        s
    } else {
        apply(after(s, ops.drop_last()), ops.last())
    }
}

/// Whether a lock in state `s` can go through `ops`: each event can happen
/// in the state that the events before it lead to.
pub open spec fn feasible(s: LockState, ops: Seq<Op>) -> bool
    decreases ops.len(),
{
    ops.len() == 0 || (feasible(s, ops.drop_last()) && enabled(
        after(s, ops.drop_last()),
        ops.last(),
    ))
}

/// How often `op` occurs in `ops`.
pub open spec fn count(ops: Seq<Op>, op: Op) -> nat
    decreases ops.len(),
{
    if ops.len() == 0 {
        0
    } else {
        count(ops.drop_last(), op) + if ops.last() == op {
            1nat
        } else {
            0nat
        }
    }
}

/// Whatever a lock goes through, its two modes never coexist: no exclusive
/// holder beside a shared one, and never two exclusive holders.
pub proof fn lemma_exclusion_is_invariant(s: LockState, ops: Seq<Op>)
    requires
        s.wf(),
        feasible(s, ops),
    ensures
        after(s, ops).wf(),
        after(s, ops).serial_active == 1 ==> after(s, ops).parallel_active == 0,
        after(s, ops).parallel_active > 0 ==> after(s, ops).serial_active == 0,
    decreases ops.len(),
{
    if ops.len() > 0 {
        lemma_exclusion_is_invariant(s, ops.drop_last());
    }
}

/// Each counter is the number of holders that were admitted in its mode and
/// have not left yet.
pub proof fn lemma_counters_count_holders(s: LockState, ops: Seq<Op>)
    requires
        s.wf(),
        feasible(s, ops),
    ensures
        after(s, ops).parallel_active + count(ops, Op::End(Mode::Parallel)) == s.parallel_active
            + count(ops, Op::Start(Mode::Parallel)),
        after(s, ops).serial_active + count(ops, Op::End(Mode::Serial)) == s.serial_active + count(
            ops,
            Op::Start(Mode::Serial),
        ),
    decreases ops.len(),
{
    if ops.len() > 0 {
        lemma_counters_count_holders(s, ops.drop_last());
    }
}

/// Once every holder that was admitted has left, a lock that began idle is
/// idle again: the shared counter is back at zero when its starts and ends
/// are matched, and so is the exclusive one.
pub proof fn lemma_matched_pairs_return_to_idle(ops: Seq<Op>)
    requires
        feasible(LockState::idle(), ops),
    ensures
        count(ops, Op::Start(Mode::Parallel)) == count(ops, Op::End(Mode::Parallel)) ==> after(
            LockState::idle(),
            ops,
        ).parallel_active == 0,
        count(ops, Op::Start(Mode::Serial)) == count(ops, Op::End(Mode::Serial)) ==> after(
            LockState::idle(),
            ops,
        ).serial_active == 0,
{
    lemma_counters_count_holders(LockState::idle(), ops);
}

/// A holder that is admitted and leaves again, however it comes to leave,
/// puts the lock back into the state in which it found it.
pub proof fn lemma_release_undoes_acquire(s: LockState, mode: Mode)
    requires
        s.wf(),
        s.admits(mode),
    ensures
        s.acquire(mode).wf(),
        s.acquire(mode).holds(mode),
        s.acquire(mode).release(mode) == s,
{
}

/// Shared holders do not keep each other out: where one has been admitted,
/// the state admits the next.
pub proof fn lemma_parallel_holders_coexist(s: LockState)
    requires
        s.wf(),
        s.admits(Mode::Parallel),
    ensures
        s.acquire(Mode::Parallel).admits(Mode::Parallel),
        s.acquire(Mode::Parallel).acquire(Mode::Parallel).parallel_active == s.parallel_active + 2,
{
}

/// An exclusive newcomer is admitted exactly when every holder of either
/// mode has left, and while it is active nobody else is admitted.
pub proof fn lemma_serial_waits_for_all(s: LockState, mode: Mode)
    requires
        s.wf(),
    ensures
        s.admits(Mode::Serial) <==> !s.holds(Mode::Serial) && !s.holds(Mode::Parallel),
        s.admits(Mode::Serial) ==> !s.acquire(Mode::Serial).admits(mode),
        s.holds(Mode::Serial) ==> !s.admits(mode),
{
}

/// Locks of different names do not interact: what happens to the lock at
/// one place of a table leaves the lock at any other place as it was, and
/// with it the answer that a newcomer gets there.
pub proof fn lemma_names_do_not_interact(states: Seq<LockState>, a: int, b: int, op: Op, mode: Mode)
    requires
        0 <= a < states.len(),
        0 <= b < states.len(),
        a != b,
    ensures
        states.update(a, apply(states[a], op))[b] == states[b],
        states.update(a, apply(states[a], op))[b].grants(mode) == states[b].grants(mode),
{
}

} // verus!
