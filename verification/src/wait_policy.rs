//! The limit on how long an acquisition may wait.

use vstd::prelude::*;

verus! {

/// Nanoseconds in one second.
pub const NANOS_PER_SEC: u32 = 1_000_000_000;

/// Nanoseconds in one millisecond.
pub const NANOS_PER_MILLI: u32 = 1_000_000;

/// Milliseconds in one second.
pub const MILLIS_PER_SEC: u64 = 1_000;

/// The seconds that an acquisition waits at most unless told otherwise.
pub const DEFAULT_MAX_WAIT_SECS: u64 = 60;

/// A length of time: whole seconds and the nanoseconds beyond them.
#[derive(Clone, Copy, Debug)]
pub struct Span {
    secs: u64,
    nanos: u32,
}

impl Span {
    /// The whole seconds.
    pub closed spec fn spec_secs(self) -> nat {
        self.secs as nat
    }

    /// The nanoseconds beyond the whole seconds.
    pub closed spec fn spec_subsec_nanos(self) -> nat {
        self.nanos as nat
    }

    /// The fraction stays below one second.
    pub open spec fn wf(self) -> bool {
        self.spec_subsec_nanos() < NANOS_PER_SEC
    }

    /// The length in nanoseconds.
    pub open spec fn total_nanos(self) -> nat {
        self.spec_secs() * (NANOS_PER_SEC as nat) + self.spec_subsec_nanos()
    }

    #[verifier::type_invariant]
    closed spec fn inv(self) -> bool {
        self.wf()
    }

    /// A span of `secs` seconds and `nanos` nanoseconds, or `None` where
    /// `nanos` amounts to a second or more.
    pub fn new(secs: u64, nanos: u32) -> (r: Option<Span>)
        ensures
            r.is_some() <==> nanos < NANOS_PER_SEC,
            r matches Some(s) ==> s.wf() && s.spec_secs() == secs && s.spec_subsec_nanos() == nanos,
    {
        if nanos < NANOS_PER_SEC {
            Some(Span { secs, nanos })
        } else {
            None
        }
    }

    /// A span of whole seconds.
    pub fn from_secs(secs: u64) -> (s: Span)
        ensures
            s.wf(),
            s.total_nanos() == secs as nat * NANOS_PER_SEC as nat,
    {
        Span { secs, nanos: 0 }
    }

    /// A span of whole milliseconds.
    pub fn from_millis(millis: u64) -> (s: Span)
        ensures
            s.wf(),
            s.total_nanos() == millis as nat * NANOS_PER_MILLI as nat,
    {
        let secs: u64 = millis / MILLIS_PER_SEC;
        let rest: u64 = millis % MILLIS_PER_SEC;
        let nanos: u32 = (rest as u32) * NANOS_PER_MILLI;
        assert(millis as nat * NANOS_PER_MILLI as nat == secs as nat * NANOS_PER_SEC as nat
            + nanos as nat) by {
            assert(millis == secs * 1000 + rest);
        }
        Span { secs, nanos }
    }

    /// The whole seconds.
    pub fn secs(&self) -> (n: u64)
        ensures
            self.wf(),
            n == self.spec_secs(),
    {
        proof {
            use_type_invariant(self);
        }
        self.secs
    }

    /// The nanoseconds beyond the whole seconds.
    pub fn subsec_nanos(&self) -> (n: u32)
        ensures
            self.wf(),
            n == self.spec_subsec_nanos(),
            n < NANOS_PER_SEC,
    {
        proof {
            use_type_invariant(self);
        }
        self.nanos
    }

    /// Whether this span is strictly longer than `other`.
    pub fn exceeds(&self, other: &Span) -> (b: bool)
        ensures
            b == (self.total_nanos() > other.total_nanos()),
    {
        proof {
            use_type_invariant(self);
            use_type_invariant(other);
            lemma_order_by_parts(*self, *other);
        }
        self.secs > other.secs || (self.secs == other.secs && self.nanos > other.nanos)
    }
}

/// Spans compare by their seconds first and by their fractions second.
pub proof fn lemma_order_by_parts(a: Span, b: Span)
    requires
        a.wf(),
        b.wf(),
    ensures
        a.total_nanos() > b.total_nanos() <==> a.spec_secs() > b.spec_secs() || (a.spec_secs()
            == b.spec_secs() && a.spec_subsec_nanos() > b.spec_subsec_nanos()),
{
}

/// The longest that an acquisition waits before it gives up.
#[derive(Clone, Copy, Debug)]
pub struct WaitPolicy {
    max_wait: Span,
}

impl View for WaitPolicy {
    type V = Span;

    /// The limit itself.
    closed spec fn view(&self) -> Span {
        self.max_wait
    }
}

impl WaitPolicy {
    /// Whether a wait of `waited` is over the limit: strictly longer than
    /// it, so that a wait of exactly the limit still goes on.
    pub open spec fn spec_expired(&self, waited: Span) -> bool {
        waited.total_nanos() > self@.total_nanos()
    }

    /// A policy with the given limit.
    pub fn new(max_wait: Span) -> (p: WaitPolicy)
        ensures
            p@ == max_wait,
            p@.wf(),
    {
        proof {
            use_type_invariant(&max_wait);
        }
        WaitPolicy { max_wait }
    }

    /// The limit.
    pub fn max_wait(&self) -> (d: Span)
        ensures
            d == self@,
            d.wf(),
    {
        proof {
            use_type_invariant(&self.max_wait);
        }
        self.max_wait
    }

    /// Replaces the limit. Waits that are judged from now on go by the new
    /// one.
    pub fn set_max_wait(&mut self, max_wait: Span)
        ensures
            final(self)@ == max_wait,
    {
        self.max_wait = max_wait;
    }

    /// Whether a wait of `waited` is over the limit.
    pub fn expired(&self, waited: Span) -> (b: bool)
        ensures
            b == self.spec_expired(waited),
    {
        waited.exceeds(&self.max_wait)
    }
}

impl Default for WaitPolicy {
    /// The policy in force until another is set: sixty seconds.
    fn default() -> (p: WaitPolicy)
        ensures
            p@.wf(),
            p@.total_nanos() == DEFAULT_MAX_WAIT_SECS as nat * NANOS_PER_SEC as nat,
    {
        WaitPolicy { max_wait: Span::from_secs(DEFAULT_MAX_WAIT_SECS) }
    }
}

} // verus!
