//! The order of a guarded call: acquire, run, release, hand on.
//!
//! A guarded call resolves its name, acquires its mode, runs the callback,
//! releases the mode and only then hands the callback's result, or its
//! panic, on to the caller. The release never depends on how the callback
//! ended. The functions here decide each move; the caller performs it: it
//! waits when told to wait, runs the callback under panic capture when told
//! to invoke, and reports back how the callback ended.

use crate::named_lock::{Attempt, LockState, Mode};
use crate::registry::NameRegistry;
use crate::wait_policy::{Span, WaitPolicy};
use vstd::prelude::*;

verus! {

/// How the callback ended.
#[derive(Clone, Copy, Debug, PartialEq, Eq, Structural)]
pub enum Completion {
    /// It returned, with a value or with an error of its own.
    Returned,
    /// It panicked.
    Panicked,
}

/// Where a guarded call stands.
#[derive(Clone, Copy, Debug, PartialEq, Eq, Structural)]
pub enum Phase {
    /// The mode is not held yet.
    Acquiring,
    /// The mode is held and the callback may run.
    Holding,
    /// The call is over: the mode was released, or was never acquired.
    Done,
}

/// What the caller does after an attempt that did not time out.
#[derive(Clone, Copy, Debug, PartialEq, Eq, Structural)]
pub enum Step {
    /// Wait for the lock to change, then attempt again.
    Wait,
    /// The mode is held: run the callback under panic capture, then finish.
    Invoke,
}

/// What the caller does once the mode has been released.
#[derive(Clone, Copy, Debug, PartialEq, Eq, Structural)]
pub enum Resolution {
    /// Return what the callback returned.
    Deliver,
    /// Raise the callback's panic again.
    Unwind,
}

/// An acquisition waited longer than the policy allows.
#[derive(Debug)]
pub struct LockTimeout {
    /// The resource name whose lock was waited for.
    pub name: String,
    /// The mode that was asked for.
    pub mode: Mode,
    /// How long the acquisition had waited when it gave up.
    pub waited: Span,
}

/// What becomes of a callback's ending once the mode is released: a return
/// is delivered, a panic is raised again. Neither is swallowed.
pub open spec fn resolution_of(completion: Completion) -> Resolution {
    match completion {
        Completion::Returned => Resolution::Deliver,
        Completion::Panicked => Resolution::Unwind,
    }
}

impl Completion {
    /// What to hand on for this ending, once the mode is released.
    pub fn resolution(self) -> (r: Resolution)
        ensures
            r == resolution_of(self),
    {
        match self {
            Completion::Returned => Resolution::Deliver,
            Completion::Panicked => Resolution::Unwind,
        }
    }
}

/// One guarded call on one resource name.
#[derive(Debug)]
pub struct Execution {
    handle: usize,
    mode: Mode,
    phase: Phase,
}

impl Execution {
    /// The handle, in the table, of the lock that the call goes by.
    pub closed spec fn spec_handle(&self) -> int {
        self.handle as int
    }

    /// The mode that the call holds or asks for.
    pub closed spec fn spec_mode(&self) -> Mode {
        self.mode
    }

    /// Where the call stands.
    pub closed spec fn spec_phase(&self) -> Phase {
        self.phase
    }

    /// The table after an attempt at `h` in `mode`, judged `expired` or not,
    /// on a table with the lock states `states`: only an attempt that is in
    /// time and finds the lock ready changes anything, and then the one
    /// lock only.
    pub open spec fn states_after_attempt(
        states: Seq<LockState>,
        h: int,
        mode: Mode,
        expired: bool,
    ) -> Seq<LockState> {
        if !expired && states[h].grants(mode) {
            states.update(h, states[h].acquire(mode))
        } else {
            states
        }
    }

    /// The phase after such an attempt.
    pub open spec fn phase_after_attempt(s: LockState, mode: Mode, expired: bool) -> Phase {
        if expired {
            Phase::Done
        } else if s.grants(mode) {
            Phase::Holding
        } else {
            Phase::Acquiring
        }
    }

    /// Starts a guarded call on `name` in `mode`. The name is resolved, so a
    /// name that the table has not seen gets its lock now; nothing is
    /// acquired yet.
    pub fn begin(registry: &mut NameRegistry, name: &str, mode: Mode) -> (e: Execution)
        ensures
            final(registry).wf(),
            e.spec_phase() == Phase::Acquiring,
            e.spec_mode() == mode,
            0 <= e.spec_handle() < final(registry).names().len(),
            final(registry).names()[e.spec_handle()] == name@,
            forall|i: int|
                0 <= i < old(registry).names().len() && old(registry).names()[i] == name@
                    ==> e.spec_handle() == i,
            old(registry).names().contains(name@) ==> {
                &&& final(registry).names() == old(registry).names()
                &&& final(registry).states() == old(registry).states()
            },
            !old(registry).names().contains(name@) ==> {
                &&& e.spec_handle() == old(registry).names().len()
                &&& final(registry).names() == old(registry).names().push(name@)
                &&& final(registry).states() == old(registry).states().push(LockState::idle())
            },
    {
        let handle = registry.resolve(name);
        Execution { handle, mode, phase: Phase::Acquiring }
    }

    /// The handle of the lock that the call goes by.
    pub fn handle(&self) -> (h: usize)
        ensures
            h == self.spec_handle(),
    {
        self.handle
    }

    /// The mode that the call holds or asks for.
    pub fn mode(&self) -> (m: Mode)
        ensures
            m == self.spec_mode(),
    {
        self.mode
    }

    /// Where the call stands.
    pub fn phase(&self) -> (p: Phase)
        ensures
            p == self.spec_phase(),
    {
        self.phase
    }

    /// One attempt to acquire the mode, made after `waited` of waiting.
    ///
    /// A wait that is over the limit ends the call with `LockTimeout`, and
    /// the lock is not touched. Otherwise the newcomer is admitted if the
    /// lock is ready for it, and the callback may run; if not, the lock is
    /// as it was and the caller waits.
    pub fn attempt(
        &mut self,
        registry: &mut NameRegistry,
        policy: &WaitPolicy,
        waited: Span,
    ) -> (r: Result<Step, LockTimeout>)
        requires
            old(self).spec_phase() == Phase::Acquiring,
            0 <= old(self).spec_handle() < old(registry).names().len(),
        ensures
            final(registry).wf(),
            final(registry).names() == old(registry).names(),
            final(self).spec_handle() == old(self).spec_handle(),
            final(self).spec_mode() == old(self).spec_mode(),
            final(registry).states() == Self::states_after_attempt(
                old(registry).states(),
                old(self).spec_handle(),
                old(self).spec_mode(),
                policy.spec_expired(waited),
            ),
            final(self).spec_phase() == Self::phase_after_attempt(
                old(registry).states()[old(self).spec_handle()],
                old(self).spec_mode(),
                policy.spec_expired(waited),
            ),
            r is Err <==> final(self).spec_phase() == Phase::Done,
            r == Ok::<Step, LockTimeout>(Step::Invoke) <==> final(self).spec_phase()
                == Phase::Holding,
            r == Ok::<Step, LockTimeout>(Step::Wait) <==> final(self).spec_phase()
                == Phase::Acquiring,
            r matches Err(timeout) ==> {
                &&& timeout.name@ == old(registry).names()[old(self).spec_handle()]
                &&& timeout.mode == old(self).spec_mode()
                &&& timeout.waited == waited
            },
    {
        if policy.expired(waited) {
            let name = registry.name(self.handle).to_owned();
            self.phase = Phase::Done;
            return Err(LockTimeout { name, mode: self.mode, waited });
        }
        match registry.try_start(self.handle, self.mode) {
            Attempt::Acquired => {
                self.phase = Phase::Holding;
                Ok(Step::Invoke)
            },
            Attempt::MustWait => Ok(Step::Wait),
        }
    }

    /// Ends the call after the callback: the mode is released first,
    /// however the callback ended, and the answer says what to hand on.
    pub fn finish(&mut self, registry: &mut NameRegistry, completion: Completion) -> (r: Resolution)
        requires
            old(self).spec_phase() == Phase::Holding,
            0 <= old(self).spec_handle() < old(registry).names().len(),
            old(registry).states()[old(self).spec_handle()].holds(old(self).spec_mode()),
        ensures
            final(registry).wf(),
            final(registry).names() == old(registry).names(),
            final(registry).states() == old(registry).states().update(
                old(self).spec_handle(),
                old(registry).states()[old(self).spec_handle()].release(old(self).spec_mode()),
            ),
            final(self).spec_handle() == old(self).spec_handle(),
            final(self).spec_mode() == old(self).spec_mode(),
            final(self).spec_phase() == Phase::Done,
            r == resolution_of(completion),
    {
        registry.end(self.handle, self.mode);
        self.phase = Phase::Done;
        completion.resolution()
    }
}

/// A guarded call leaves the table as it found it, whether the callback
/// returned or panicked: the release after an attempt that was admitted
/// undoes exactly what the attempt did, so a counter that was at zero is at
/// zero again. Only then is the ending handed on, and a panic is handed on
/// as a panic.
pub proof fn lemma_guarded_call_restores(
    states: Seq<LockState>,
    h: int,
    mode: Mode,
    completion: Completion,
)
    requires
        0 <= h < states.len(),
        states[h].wf(),
        states[h].grants(mode),
    ensures
        ({
            let held = Execution::states_after_attempt(states, h, mode, false);
            &&& held[h].holds(mode)
            &&& held[h].wf()
            &&& held.update(h, held[h].release(mode)) == states
        }),
        resolution_of(completion) == Resolution::Unwind <==> completion == Completion::Panicked,
{
    let held = Execution::states_after_attempt(states, h, mode, false);
    assert(held.update(h, held[h].release(mode)) =~= states);
}

} // verus!
