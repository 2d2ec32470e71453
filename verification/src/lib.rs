//! Coordination of test cases that share named resources.
//!
//! A resource name owns one lock with two modes. The exclusive mode
//! ("serial") admits a single holder and nobody else; the shared mode
//! ("parallel") admits any number of holders at once, but never beside an
//! exclusive holder. Locks of different names never interact.
//!
//! The crate holds the decisions only: the counters of a lock and how they
//! move, the table from names to locks, the limit on waiting, and the order
//! in which a guarded call acquires, runs and releases. Blocking, panic
//! capture and process-wide state are left to the caller, who performs the
//! actions that the functions here return.

pub mod execution;
pub mod file_lock;
pub mod history;
pub mod named_lock;
pub mod registry;
pub mod wait_policy;
