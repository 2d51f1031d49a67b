//! A reference-counted, read-only buffer shared across threads without
//! copying.
//!
//! `SharedImmutableBuffer` wraps its contents in a shared-ownership handle:
//! `clone_handle` hands out further handles to the very same contents, and
//! `read` is the only access, so the contents can never change after
//! construction — every handle, on every thread, reads the same sequence.
//! The underlying storage is freed when the last handle is dropped; there
//! is no explicit free.

use std::sync::Arc;
use vstd::prelude::*;

verus! {

/// Relies on `alloc::sync::Arc::clone`: the returned handle shares the same
/// allocation as `a`, so it carries the same contents; only a reference
/// count changes.
#[verifier::external_body]
fn clone_arc<T>(a: &Arc<Vec<T>>) -> (r: Arc<Vec<T>>)
    ensures
        r == *a,
{
    Arc::clone(a)
}

/// A shared-ownership handle to an immutable sequence of `T`. Cloning a
/// handle is cheap and never blocks; reading is safe from any number of
/// handles at once because nothing can mutate the contents.
pub struct SharedImmutableBuffer<T> {
    data: Arc<Vec<T>>,
}

impl<T> View for SharedImmutableBuffer<T> {
    type V = Seq<T>;

    closed spec fn view(&self) -> Seq<T> {
        self.data@
    }
}

impl<T> SharedImmutableBuffer<T> {
    /// Takes ownership of `contents`; they can never be changed afterwards.
    pub fn new(contents: Vec<T>) -> (b: Self)
        ensures
            b@ == contents@,
    {
        SharedImmutableBuffer { data: Arc::new(contents) }
    }

    /// A new handle to the very same contents: cheap, never blocks, never
    /// fails. Every handle reads byte-for-byte what the original holds.
    pub fn clone_handle(&self) -> (h: Self)
        ensures
            h@ == self@,
    {
        SharedImmutableBuffer { data: clone_arc(&self.data) }
    }

    /// A read-only view of the contents.
    pub fn read(&self) -> (s: &Vec<T>)
        ensures
            s@ == self@,
    {
        &self.data
    }

    /// How many elements the buffer holds.
    pub fn len(&self) -> (n: usize)
        ensures
            n == self@.len(),
    {
        self.data.len()
    }
}

} // verus!
