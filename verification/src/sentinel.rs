//! Reference-counted sentinels.
//!
//! A handle that others depend on shares a sentinel with each of them. When
//! the handle is about to go, or to do what the others must not see half
//! done, it looks at the sentinel: if it holds the only reference, none of the
//! others is alive.

use std::sync::Arc;
use vstd::prelude::*;

verus! {

/// Calls `Arc::clone`. Nothing is claimed of the result.
#[verifier::external_body]
fn arc_share(handle: &Arc<()>) -> (shared: Arc<()>) {
    Arc::clone(handle)
}

/// Calls `Arc::strong_count`. The count is that of the moment and depends on
/// who else holds a reference: nothing is claimed of it.
#[verifier::external_body]
fn arc_strong_count(handle: &Arc<()>) -> (count: usize) {
    Arc::strong_count(handle)
}

/// Calls `Arc::weak_count`. The count is that of the moment: nothing is
/// claimed of it.
#[verifier::external_body]
fn arc_weak_count(handle: &Arc<()>) -> (count: usize) {
    Arc::weak_count(handle)
}

/// Whether the holder of a reference holds the only one, by the counts of the
/// strong and the weak references, its own included.
pub fn sole_reference(strong_count: usize, weak_count: usize) -> (sole: bool)
    ensures
        sole == (strong_count == 1 && weak_count == 0),
{
    strong_count == 1 && weak_count == 0
}

/// How many others hold a strong reference, by the count of the strong
/// references, the holder's own included.
pub fn other_references(strong_count: usize) -> (others: usize)
    ensures
        others == (if strong_count >= 1 {
            strong_count - 1
        } else {
            0
        }),
{
    if strong_count >= 1 {
        strong_count - 1
    } else {
        0
    }
}

/// One reference to a shared sentinel.
#[derive(Debug)]
pub struct Sentinel {
    handle: Arc<()>,
}

impl Sentinel {
    /// A sentinel that nobody else holds yet.
    pub fn new() -> (sentinel: Sentinel) {
        Sentinel { handle: Arc::new(()) }
    }

    /// One more reference to the same sentinel.
    pub fn share(&self) -> (shared: Sentinel) {
        Sentinel { handle: arc_share(&self.handle) }
    }

    /// Whether this is the only reference to the sentinel, now.
    pub fn is_sole(&self) -> (sole: bool) {
        sole_reference(arc_strong_count(&self.handle), arc_weak_count(&self.handle))
    }

    /// How many other references to the sentinel there are, now.
    pub fn others(&self) -> (others: usize) {
        other_references(arc_strong_count(&self.handle))
    }
}

} // verus!
