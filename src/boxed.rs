//! A single-value container that owns one chunk of the allocator.
use vstd::prelude::*;
use crate::heap::{alloc_items, alloc_spec, free_spec, AllocError, Heap};
use crate::ptr::Ptr;

verus! {

/// Owns storage for one `T`, taken from a `Heap`. The value itself is written
/// and read through `as_ptr` by code that may touch memory; the storage goes
/// back to the heap through `free`, which consumes the box, so at most once.
pub struct Box<T> {
    inner: Ptr<T>,
}

impl<T> View for Box<T> {
    type V = u32;

    /// The payload address the box owns.
    closed spec fn view(&self) -> u32 {
        self.inner.num
    }
}

impl<T> Box<T> {
    /// Storage for one `T`, or `Exhausted` when no free chunk fits it.
    pub fn new(heap: &mut Heap) -> (r: Result<Box<T>, AllocError>)
        requires
            old(heap)@.wf(),
        ensures
            final(heap)@ == alloc_spec(old(heap)@, vstd::layout::size_of::<T>() as int).0,
            final(heap)@.wf(),
            match r {
                Ok(b) => b@ == alloc_spec(old(heap)@, vstd::layout::size_of::<T>() as int).1 && b@ != 0,
                Err(e) => e == AllocError::Exhausted && alloc_spec(
                    old(heap)@,
                    vstd::layout::size_of::<T>() as int,
                ).1 == 0,
            },
    {
        let inner = alloc_items::<T>(heap, 1);
        if inner.is_null() {
            Err(AllocError::Exhausted)
        } else {
            Ok(Box { inner })
        }
    }

    /// The address of the owned value.
    pub fn as_ptr(&self) -> (r: Ptr<T>)
        ensures
            r.num == self@,
    {
        self.inner
    }

    /// Give the storage back to `heap`, which must be the heap it came from.
    pub fn free(self, heap: &mut Heap)
        requires
            old(heap)@.wf(),
            old(heap)@.allocated(self@ as int),
        ensures
            final(heap)@ == free_spec(old(heap)@, self@ as int),
            final(heap)@.wf(),
    {
        let mut inner = self.inner;
        crate::heap::free(heap, &mut inner);
    }
}

} // verus!
