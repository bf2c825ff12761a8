use std::sync::Arc;
use vstd::prelude::*;

verus! {

/// Relies on alloc::sync::Arc::clone: the returned handle points to the same
/// allocation as the argument, so it denotes the same value.
#[verifier::external_body]
fn arc_clone<T>(a: &Arc<T>) -> (r: Arc<T>)
    ensures
        r == *a,
{
    Arc::clone(a)
}

/// A half-open byte range within the mapped region, recording where an
/// array's backing storage lies.
#[derive(Clone, Copy, Debug, PartialEq, Eq, Structural)]
pub struct StorageRange {
    pub offset: usize,
    pub len: usize,
}

impl StorageRange {
    /// The range lies entirely inside a region of `n` bytes.
    pub open spec fn within(self, n: nat) -> bool {
        self.offset + self.len <= n
    }
}

/// An immutable byte view over a file, shared by reference count. Every
/// decoded array and the iterator hold a handle to it; it is released only
/// when the last holder is dropped.
pub struct MappedRegion {
    bytes: Arc<Vec<u8>>,
}

impl View for MappedRegion {
    type V = Seq<u8>;

    closed spec fn view(&self) -> Seq<u8> {
        self.bytes@
    }
}

impl MappedRegion {
    /// Wraps the mapped bytes in a shared, read-only handle.
    pub fn new(bytes: Vec<u8>) -> (r: Self)
        ensures
            r@ == bytes@,
    {
        MappedRegion { bytes: Arc::new(bytes) }
    }

    pub fn len(&self) -> (n: usize)
        ensures
            n == self@.len(),
    {
        self.bytes.len()
    }

    /// A new handle to the same mapping: a reference-count increment, never a
    /// byte copy.
    pub fn share(&self) -> (r: Self)
        ensures
            r@ == self@,
    {
        MappedRegion { bytes: arc_clone(&self.bytes) }
    }
}

} // verus!
