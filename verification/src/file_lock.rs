//! The lock file of a resource name.
//!
//! Processes that share no memory coordinate through advisory locks on
//! files. Each resource name has one lock file, named after it, and the two
//! modes map onto the two kinds of advisory lock.

use crate::named_lock::Mode;
use vstd::prelude::*;

verus! {

/// The two kinds of advisory lock on a file.
#[derive(Clone, Copy, Debug, PartialEq, Eq, Structural)]
pub enum FileLockKind {
    /// Any number of processes may hold it at once.
    Shared,
    /// One process holds it, and none holds a shared one meanwhile.
    Exclusive,
}

/// What every lock file's name begins with.
pub open spec fn lock_file_prefix() -> Seq<char> {
    "serial-test-"@
}

/// The name of the lock file of the resource `name`.
pub open spec fn spec_lock_file_name(name: Seq<char>) -> Seq<char> {
    lock_file_prefix() + name
}

/// The kind of advisory lock that stands for `mode`.
pub fn file_lock_kind(mode: Mode) -> (kind: FileLockKind)
    ensures
        kind == FileLockKind::Exclusive <==> mode == Mode::Serial,
        kind == FileLockKind::Shared <==> mode == Mode::Parallel,
{
    match mode {
        Mode::Serial => FileLockKind::Exclusive,
        Mode::Parallel => FileLockKind::Shared,
    }
}

/// The name of the lock file of the resource `name`, to be looked up in the
/// directory that the processes agree on.
pub fn lock_file_name(name: &str) -> (file: String)
    ensures
        file@ == spec_lock_file_name(name@),
{
    let mut file = "serial-test-".to_owned();
    file.append(name);
    file
}

/// One name, one file: resources of different names never share a lock
/// file, and a name always leads to the same file.
pub proof fn lemma_lock_files_are_distinct(a: Seq<char>, b: Seq<char>)
    ensures
        spec_lock_file_name(a) == spec_lock_file_name(b) <==> a == b,
{
    let p = lock_file_prefix();
    if spec_lock_file_name(a) == spec_lock_file_name(b) {
        assert(a =~= (p + a).subrange(p.len() as int, (p + a).len() as int));
        assert(b =~= (p + b).subrange(p.len() as int, (p + b).len() as int));
    }
}

} // verus!
