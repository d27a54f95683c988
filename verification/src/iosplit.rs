//! Splitting one bidirectional byte stream into a reading half and a
//! writing half.
//!
//! The transcode path pumps bytes into a process and drains its output
//! concurrently, so one underlying object must serve two owners. Each half
//! holds the object behind one shared write-capable lock and takes it
//! exclusively for the duration of each operation.

use std::sync::Arc;

use vstd::prelude::*;
use vstd::rwlock::{RwLock, WriteHandle};

verus! {

/// Relies on `<Arc<T> as Clone>::clone`: the clone is a new handle to the
/// same allocation, so as a value it is the same as what was cloned.
#[verifier::external_body]
fn clone_arc<T>(v: &Arc<RwLock<T, spec_fn(T) -> bool>>) -> (r: Arc<RwLock<T, spec_fn(T) -> bool>>)
    ensures
        r == *v,
{
    v.clone()
}

/// One half of a split stream: a shared, lock-protected handle on the
/// underlying object.
#[verifier::reject_recursive_types(T)]
pub struct SharedIo<T> {
    lock: Arc<RwLock<T, spec_fn(T) -> bool>>,
}

impl<T> SharedIo<T> {
    /// The invariant every value behind the shared lock satisfies.
    pub closed spec fn inv(&self) -> spec_fn(T) -> bool {
        (*self.lock).pred()
    }

    /// Take the underlying object exclusively. The caller performs its read
    /// or write and hands the object back through the handle.
    pub fn acquire(&self) -> (r: (T, WriteHandle<'_, T, spec_fn(T) -> bool>))
        ensures
            r.1.rwlock().pred() == self.inv(),
            (self.inv())(r.0),
    {
        (*self.lock).acquire_write()
    }
}

/// Share one object between a reading half and a writing half. Both halves
/// accept any value of the object back when they release it.
pub fn io_split<T>(t: T) -> (r: (SharedIo<T>, SharedIo<T>))
    ensures
        r.0.inv() == r.1.inv(),
        forall|v: T| #[trigger] (r.0.inv())(v),
{
    let lock = Arc::new(RwLock::new(t, Ghost(|v: T| true)));
    let reader = SharedIo { lock: clone_arc(&lock) };
    let writer = SharedIo { lock };
    (reader, writer)
}

} // verus!
