//! The lock of one resource name: two counters and the moves between them.

use vstd::prelude::*;

verus! {

/// The two ways of holding a lock.
#[derive(Clone, Copy, Debug, PartialEq, Eq, Structural)]
pub enum Mode {
    /// Exclusive: one holder, and nobody beside it.
    Serial,
    /// Shared: any number of holders, none of them exclusive.
    Parallel,
}

/// What an attempt to start a mode came to.
#[derive(Clone, Copy, Debug, PartialEq, Eq, Structural)]
pub enum Attempt {
    /// The mode is now held; the lock counts the new holder.
    Acquired,
    /// The lock is as it was; the caller waits and tries again.
    MustWait,
}

/// The largest number of shared holders that a lock counts.
pub const PARALLEL_LIMIT: u32 = 0xffff_ffff;

/// The state of a lock as contracts see it: how many holders of each mode
/// are active.
pub ghost struct LockState {
    pub serial_active: nat,
    pub parallel_active: nat,
}

impl LockState {
    /// The state of a lock that nobody holds.
    pub open spec fn idle() -> LockState {
        LockState { serial_active: 0, parallel_active: 0 }
    }

    /// The two modes never coexist, and the exclusive one has at most one
    /// holder.
    pub open spec fn wf(self) -> bool {
        &&& self.serial_active <= 1
        &&& self.serial_active == 1 ==> self.parallel_active == 0
    }

    pub open spec fn is_idle(self) -> bool {
        self.serial_active == 0 && self.parallel_active == 0
    }

    /// Whether a newcomer in `mode` may proceed at once. A shared holder
    /// only has to find no exclusive one; an exclusive holder has to find
    /// the lock idle.
    pub open spec fn admits(self, mode: Mode) -> bool {
        match mode {
            Mode::Parallel => self.serial_active == 0,
            Mode::Serial => self.is_idle(),
        }
    }

    /// Whether a lock in this state takes a newcomer in `mode` at once: the
    /// state admits the mode, and a shared newcomer still fits the counter.
    pub open spec fn grants(self, mode: Mode) -> bool {
        &&& self.admits(mode)
        &&& mode == Mode::Parallel ==> self.parallel_active < PARALLEL_LIMIT
    }

    /// The state once a newcomer in `mode` has been admitted.
    pub open spec fn acquire(self, mode: Mode) -> LockState {
        match mode {
            Mode::Parallel => LockState { parallel_active: self.parallel_active + 1, ..self },
            Mode::Serial => LockState { serial_active: self.serial_active + 1, ..self },
        }
    }

    /// Whether some holder in `mode` is active, so that one can leave.
    pub open spec fn holds(self, mode: Mode) -> bool {
        match mode {
            Mode::Parallel => self.parallel_active > 0,
            Mode::Serial => self.serial_active > 0,
        }
    }

    /// The state once a holder in `mode` has left.
    pub open spec fn release(self, mode: Mode) -> LockState {
        match mode {
            Mode::Parallel => LockState {
                parallel_active: (self.parallel_active - 1) as nat,
                ..self
            },
            Mode::Serial => LockState { serial_active: (self.serial_active - 1) as nat, ..self },
        }
    }
}

/// The lock of one resource name.
#[derive(Clone, Copy, Debug)]
pub struct NamedLock {
    serial_held: bool,
    parallel_active: u32,
}

impl View for NamedLock {
    type V = LockState;

    closed spec fn view(&self) -> LockState {
        LockState {
            serial_active: if self.serial_held { 1 } else { 0 },
            parallel_active: self.parallel_active as nat,
        }
    }
}

impl NamedLock {
    /// An exclusive holder excludes every shared one.
    #[verifier::type_invariant]
    closed spec fn inv(self) -> bool {
        self.serial_held ==> self.parallel_active == 0
    }

    /// A lock that nobody holds.
    pub fn new() -> (lock: NamedLock)
        ensures
            lock@ == LockState::idle(),
            lock@.wf(),
    {
        NamedLock { serial_held: false, parallel_active: 0 }
    }

    /// The number of shared holders that are active.
    pub fn parallel_count(&self) -> (n: u32)
        ensures
            n == self@.parallel_active,
            self@.serial_active == 1 ==> n == 0,
    {
        proof {
            use_type_invariant(self);
        }
        self.parallel_active
    }

    /// Whether an exclusive holder is active.
    pub fn is_locked(&self) -> (b: bool)
        ensures
            b == (self@.serial_active == 1),
            b ==> self@.parallel_active == 0,
    {
        proof {
            use_type_invariant(self);
        }
        self.serial_held
    }

    /// Whether some holder in `mode` is active.
    pub fn is_held(&self, mode: Mode) -> (b: bool)
        ensures
            b == self@.holds(mode),
    {
        match mode {
            Mode::Parallel => self.parallel_active > 0,
            Mode::Serial => self.serial_held,
        }
    }

    /// Admits one more shared holder unless an exclusive holder is active.
    /// A lock whose counter is full keeps the newcomer waiting as well.
    pub fn try_start_parallel(&mut self) -> (r: Attempt)
        ensures
            final(self)@.wf(),
            r == Attempt::Acquired <==> old(self)@.grants(Mode::Parallel),
            r == Attempt::Acquired ==> final(self)@ == old(self)@.acquire(Mode::Parallel),
            r == Attempt::MustWait ==> final(self)@ == old(self)@,
        no_unwind
    {
        proof {
            use_type_invariant(&*self);
        }
        if self.serial_held || self.parallel_active == PARALLEL_LIMIT {
            Attempt::MustWait
        } else {
            self.parallel_active = self.parallel_active + 1;
            Attempt::Acquired
        }
    }

    /// Lets one shared holder leave.
    pub fn end_parallel(&mut self)
        requires
            old(self)@.holds(Mode::Parallel),
        ensures
            final(self)@.wf(),
            final(self)@ == old(self)@.release(Mode::Parallel),
        no_unwind
    {
        proof {
            use_type_invariant(&*self);
        }
        self.parallel_active = self.parallel_active - 1;
    }

    /// Admits the exclusive holder if the lock is idle.
    pub fn try_start_serial(&mut self) -> (r: Attempt)
        ensures
            final(self)@.wf(),
            r == Attempt::Acquired <==> old(self)@.grants(Mode::Serial),
            r == Attempt::Acquired ==> final(self)@ == old(self)@.acquire(Mode::Serial),
            r == Attempt::MustWait ==> final(self)@ == old(self)@,
        no_unwind
    {
        proof {
            use_type_invariant(&*self);
        }
        if self.serial_held || self.parallel_active > 0 {
            Attempt::MustWait
        } else {
            self.serial_held = true;
            Attempt::Acquired
        }
    }

    /// Lets the exclusive holder leave.
    pub fn end_serial(&mut self)
        requires
            old(self)@.holds(Mode::Serial),
        ensures
            final(self)@.wf(),
            final(self)@ == old(self)@.release(Mode::Serial),
            final(self)@.is_idle(),
        no_unwind
    {
        proof {
            use_type_invariant(&*self);
        }
        self.serial_held = false;
    }

    /// Tries to admit a newcomer in `mode`.
    pub fn try_start(&mut self, mode: Mode) -> (r: Attempt)
        ensures
            final(self)@.wf(),
            r == Attempt::Acquired <==> old(self)@.grants(mode),
            r == Attempt::Acquired ==> final(self)@ == old(self)@.acquire(mode),
            r == Attempt::MustWait ==> final(self)@ == old(self)@,
        no_unwind
    {
        match mode {
            Mode::Parallel => self.try_start_parallel(),
            Mode::Serial => self.try_start_serial(),
        }
    }

    /// Lets one holder in `mode` leave.
    pub fn end(&mut self, mode: Mode)
        requires
            old(self)@.holds(mode),
        ensures
            final(self)@.wf(),
            final(self)@ == old(self)@.release(mode),
        no_unwind
    {
        match mode {
            Mode::Parallel => self.end_parallel(),
            Mode::Serial => self.end_serial(),
        }
    }
}

} // verus!
