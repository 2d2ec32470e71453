//! The table from resource names to their locks.
//!
//! A name gets its lock when it is first resolved and keeps it from then on:
//! entries are never removed, replaced or reordered, so the position of an
//! entry is a handle that stays good for the life of the table.

use crate::named_lock::{Attempt, LockState, Mode, NamedLock};
use vstd::prelude::*;

verus! {

struct Entry {
    name: String,
    lock: NamedLock,
}

/// No name occurs twice, and every lock keeps its two modes apart.
spec fn distinct_and_sound(entries: Seq<Entry>) -> bool {
    &&& forall|i: int, j: int|
        0 <= i < j < entries.len() ==> (#[trigger] entries[i]).name@ != (#[trigger] entries[j]).name@
    &&& forall|i: int| 0 <= i < entries.len() ==> (#[trigger] entries[i]).lock@.wf()
}

/// A table stays sound when one of its locks moves to another sound state.
proof fn lemma_one_lock_moved(before: Seq<Entry>, after: Seq<Entry>, h: int)
    requires
        distinct_and_sound(before),
        0 <= h < before.len(),
        after.len() == before.len(),
        after[h].name == before[h].name,
        after[h].lock@.wf(),
        forall|i: int| 0 <= i < before.len() && i != h ==> after[i] == before[i],
    ensures
        distinct_and_sound(after),
{
    assert forall|i: int, j: int| 0 <= i < j < after.len() implies (#[trigger] after[i]).name@ != (
    #[trigger] after[j]).name@ by {
        assert(before[i].name@ != before[j].name@);
    }
    assert forall|i: int| 0 <= i < after.len() implies (#[trigger] after[i]).lock@.wf() by {
        if i != h {
            assert(before[i].lock@.wf());
        }
    }
}

/// The mapping that two sequences of equal length stand for: each name with
/// the state at its place.
pub open spec fn table_of(names: Seq<Seq<char>>, states: Seq<LockState>) -> Map<
    Seq<char>,
    LockState,
> {
    Map::new(
        |name: Seq<char>| names.contains(name),
        |name: Seq<char>| states[names.index_of(name)],
    )
}

/// A name leads to the state at its own place.
pub proof fn lemma_table_lookup(names: Seq<Seq<char>>, states: Seq<LockState>, i: int)
    requires
        names.no_duplicates(),
        names.len() == states.len(),
        0 <= i < names.len(),
    ensures
        names.index_of(names[i]) == i,
        table_of(names, states).dom().contains(names[i]),
        table_of(names, states)[names[i]] == states[i],
{
    assert(names.contains(names[i]));
}

/// A name that is new to the table enters the mapping with its state, and
/// every other name keeps what it had: the mapping only grows.
pub proof fn lemma_table_grows(
    names: Seq<Seq<char>>,
    states: Seq<LockState>,
    name: Seq<char>,
    state: LockState,
)
    requires
        names.no_duplicates(),
        names.len() == states.len(),
        !names.contains(name),
    ensures
        names.push(name).no_duplicates(),
        table_of(names.push(name), states.push(state)) == table_of(names, states).insert(
            name,
            state,
        ),
{
    let grown = names.push(name);
    assert forall|n: Seq<char>| grown.contains(n) <==> (names.contains(n) || n == name) by {
        if names.contains(n) {
            let i = names.index_of(n);
            assert(grown[i] == n);
        }
        if n == name {
            assert(grown[names.len() as int] == n);
        }
    }
    assert forall|n: Seq<char>| grown.contains(n) implies #[trigger] table_of(
        grown,
        states.push(state),
    )[n] == table_of(names, states).insert(name, state)[n] by {
        let i = grown.index_of(n);
        lemma_table_lookup(grown, states.push(state), i);
        if i < names.len() {
            lemma_table_lookup(names, states, i);
        }
    }
    assert(table_of(grown, states.push(state)) =~= table_of(names, states).insert(name, state));
}

/// When the lock at one place moves to another state, its name maps to the
/// new state and every other name keeps what it had.
pub proof fn lemma_table_moves(
    names: Seq<Seq<char>>,
    states: Seq<LockState>,
    h: int,
    state: LockState,
)
    requires
        names.no_duplicates(),
        names.len() == states.len(),
        0 <= h < names.len(),
    ensures
        table_of(names, states.update(h, state)) == table_of(names, states).insert(
            names[h],
            state,
        ),
{
    assert(names.contains(names[h]));
    assert forall|n: Seq<char>| names.contains(n) implies #[trigger] table_of(
        names,
        states.update(h, state),
    )[n] == table_of(names, states).insert(names[h], state)[n] by {
        let i = names.index_of(n);
        lemma_table_lookup(names, states, i);
        lemma_table_lookup(names, states.update(h, state), i);
    }
    assert(table_of(names, states.update(h, state)) =~= table_of(names, states).insert(
        names[h],
        state,
    ));
}

/// The locks of all the names seen so far, in the order of their first use.
pub struct NameRegistry {
    entries: Vec<Entry>,
}

impl View for NameRegistry {
    type V = Map<Seq<char>, LockState>;

    /// The table as a mapping: each name seen so far, with the state of its
    /// lock.
    open spec fn view(&self) -> Map<Seq<char>, LockState> {
        table_of(self.names(), self.states())
    }
}

impl NameRegistry {
    /// The names, in the order of their first use.
    pub closed spec fn names(&self) -> Seq<Seq<char>> {
        Seq::new(self.entries@.len(), |i: int| self.entries@[i].name@)
    }

    /// The states of the locks, in the order of `names`.
    pub closed spec fn states(&self) -> Seq<LockState> {
        Seq::new(self.entries@.len(), |i: int| self.entries@[i].lock@)
    }

    /// Every name has exactly one lock, and every lock keeps its two modes
    /// apart.
    pub open spec fn wf(&self) -> bool {
        &&& self.names().len() == self.states().len()
        &&& self.names().no_duplicates()
        &&& forall|i: int| 0 <= i < self.states().len() ==> (#[trigger] self.states()[i]).wf()
    }

    #[verifier::type_invariant]
    closed spec fn inv(self) -> bool {
        distinct_and_sound(self.entries@)
    }

    /// What the table's own invariant says of its two sequences.
    proof fn lemma_inv_gives_wf(&self)
        requires
            distinct_and_sound(self.entries@),
        ensures
            self.wf(),
    {
        assert forall|i: int, j: int|
            0 <= i < self.names().len() && 0 <= j < self.names().len() && i != j implies self.names()[i]
            != self.names()[j] by {
            if i < j {
                assert(self.entries@[i].name@ != self.entries@[j].name@);
            } else {
                assert(self.entries@[j].name@ != self.entries@[i].name@);
            }
        }
        assert forall|i: int| 0 <= i < self.states().len() implies (#[trigger] self.states()[i]).wf() by {
            assert(self.entries@[i].lock@.wf());
        }
    }

    /// A table without names.
    pub fn new() -> (r: NameRegistry)
        ensures
            r.wf(),
            r.names() == Seq::<Seq<char>>::empty(),
            r.states() == Seq::<LockState>::empty(),
            r@ == Map::<Seq<char>, LockState>::empty(),
    {
        let r = NameRegistry { entries: Vec::new() };
        assert(r.names() =~= Seq::<Seq<char>>::empty());
        assert(r.states() =~= Seq::<LockState>::empty());
        assert(r@ =~= Map::<Seq<char>, LockState>::empty());
        r
    }

    /// The number of names seen so far.
    pub fn len(&self) -> (n: usize)
        ensures
            self.wf(),
            n == self.names().len(),
    {
        proof {
            use_type_invariant(self);
            self.lemma_inv_gives_wf();
        }
        self.entries.len()
    }

    /// The handle of `name`, if the name has been resolved before.
    pub fn find(&self, name: &str) -> (r: Option<usize>)
        ensures
            self.wf(),
            r.is_some() <==> self.names().contains(name@),
            r matches Some(h) ==> h < self.names().len() && self.names()[h as int] == name@,
            forall|i: int|
                0 <= i < self.names().len() && self.names()[i] == name@ ==> r == Some(i as usize),
    {
        proof {
            use_type_invariant(self);
            self.lemma_inv_gives_wf();
        }
        let key = name.to_owned();
        let mut i: usize = 0;
        while i < self.entries.len()
            invariant
                i <= self.entries@.len(),
                self.wf(),
                self.names().len() == self.entries@.len(),
                key@ == name@,
                forall|j: int| 0 <= j < i ==> self.names()[j] != name@,
            decreases self.entries@.len() - i,
        {
            if self.entries[i].name == key {
                assert(self.names()[i as int] == name@);
                return Some(i);
            }
            i += 1;
        }
        None
    }

    /// The handle of `name`. A name that was not seen before gets a lock of
    /// its own, idle, behind all the others; a name that was seen before
    /// keeps the lock it has, and nothing changes.
    pub fn resolve(&mut self, name: &str) -> (h: usize)
        ensures
            final(self).wf(),
            h < final(self).names().len(),
            final(self).names()[h as int] == name@,
            forall|i: int|
                0 <= i < old(self).names().len() && old(self).names()[i] == name@ ==> h == i,
            old(self).names().contains(name@) ==> {
                &&& final(self).names() == old(self).names()
                &&& final(self).states() == old(self).states()
            },
            !old(self).names().contains(name@) ==> {
                &&& h == old(self).names().len()
                &&& final(self).names() == old(self).names().push(name@)
                &&& final(self).states() == old(self).states().push(LockState::idle())
            },
            final(self)@ == if old(self)@.dom().contains(name@) {
                old(self)@
            } else {
                old(self)@.insert(name@, LockState::idle())
            },
    {
        proof {
            use_type_invariant(&*self);
            self.lemma_inv_gives_wf();
            if !self.names().contains(name@) {
                lemma_table_grows(self.names(), self.states(), name@, LockState::idle());
            }
        }
        match self.find(name) {
            Some(h) => h,
            None => {
                let h = self.entries.len();
                let entry = Entry { name: name.to_owned(), lock: NamedLock::new() };
                // The vector leaves the table while it grows, so that the
                // table is never seen with a name that is not yet checked.
                let mut entries: Vec<Entry> = Vec::new();
                std::mem::swap(&mut self.entries, &mut entries);
                entries.push(entry);
                proof {
                    assert forall|i: int, j: int| 0 <= i < j < entries@.len() implies (
                    #[trigger] entries@[i]).name@ != (#[trigger] entries@[j]).name@ by {
                        if j == h {
                            assert(old(self).names()[i] == entries@[i].name@);
                        }
                    }
                }
                std::mem::swap(&mut self.entries, &mut entries);
                proof {
                    self.lemma_inv_gives_wf();
                }
                assert(self.names() =~= old(self).names().push(name@));
                assert(self.states() =~= old(self).states().push(LockState::idle()));
                h
            },
        }
    }

    /// The name behind a handle.
    pub fn name(&self, h: usize) -> (name: &str)
        requires
            h < self.names().len(),
        ensures
            self.wf(),
            name@ == self.names()[h as int],
    {
        proof {
            use_type_invariant(self);
            self.lemma_inv_gives_wf();
        }
        self.entries[h].name.as_str()
    }

    /// The lock behind a handle.
    pub fn lock(&self, h: usize) -> (lock: &NamedLock)
        requires
            h < self.names().len(),
        ensures
            self.wf(),
            lock@ == self.states()[h as int],
            lock@.wf(),
    {
        proof {
            use_type_invariant(self);
            self.lemma_inv_gives_wf();
        }
        &self.entries[h].lock
    }

    /// Tries to admit a newcomer in `mode` to the lock behind `h`. No other
    /// lock is touched, and the lock itself only where the newcomer is
    /// admitted.
    pub fn try_start(&mut self, h: usize, mode: Mode) -> (r: Attempt)
        requires
            h < old(self).names().len(),
        ensures
            final(self).wf(),
            final(self).names() == old(self).names(),
            r == Attempt::Acquired <==> old(self).states()[h as int].grants(mode),
            r == Attempt::Acquired ==> final(self).states() == old(self).states().update(
                h as int,
                old(self).states()[h as int].acquire(mode),
            ),
            r == Attempt::MustWait ==> final(self).states() == old(self).states(),
            final(self)@ == if r == Attempt::Acquired {
                old(self)@.insert(
                    old(self).names()[h as int],
                    old(self).states()[h as int].acquire(mode),
                )
            } else {
                old(self)@
            },
    {
        proof {
            use_type_invariant(&*self);
        }
        let mut entries: Vec<Entry> = Vec::new();
        std::mem::swap(&mut self.entries, &mut entries);
        let r = entries[h].lock.try_start(mode);
        proof {
            lemma_one_lock_moved(old(self).entries@, entries@, h as int);
        }
        std::mem::swap(&mut self.entries, &mut entries);
        proof {
            self.lemma_inv_gives_wf();
            old(self).lemma_inv_gives_wf();
            lemma_table_moves(
                old(self).names(),
                old(self).states(),
                h as int,
                old(self).states()[h as int].acquire(mode),
            );
        }
        assert(self.names() =~= old(self).names());
        assert(r == Attempt::MustWait ==> self.states() =~= old(self).states());
        assert(r == Attempt::Acquired ==> self.states() =~= old(self).states().update(
            h as int,
            old(self).states()[h as int].acquire(mode),
        ));
        r
    }

    /// Lets one holder in `mode` leave the lock behind `h`. No other lock is
    /// touched.
    pub fn end(&mut self, h: usize, mode: Mode)
        requires
            h < old(self).names().len(),
            old(self).states()[h as int].holds(mode),
        ensures
            final(self).wf(),
            final(self).names() == old(self).names(),
            final(self).states() == old(self).states().update(
                h as int,
                old(self).states()[h as int].release(mode),
            ),
            final(self)@ == old(self)@.insert(
                old(self).names()[h as int],
                old(self).states()[h as int].release(mode),
            ),
    {
        proof {
            use_type_invariant(&*self);
        }
        let mut entries: Vec<Entry> = Vec::new();
        std::mem::swap(&mut self.entries, &mut entries);
        entries[h].lock.end(mode);
        proof {
            lemma_one_lock_moved(old(self).entries@, entries@, h as int);
        }
        std::mem::swap(&mut self.entries, &mut entries);
        proof {
            self.lemma_inv_gives_wf();
            old(self).lemma_inv_gives_wf();
            lemma_table_moves(
                old(self).names(),
                old(self).states(),
                h as int,
                old(self).states()[h as int].release(mode),
            );
        }
        assert(self.names() =~= old(self).names());
        assert(self.states() =~= old(self).states().update(
            h as int,
            old(self).states()[h as int].release(mode),
        ));
    }
}

} // verus!
