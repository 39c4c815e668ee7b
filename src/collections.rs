//! Fixed-length arrays over raw addresses: `Arr` owns a chunk of the
//! allocator, `StaticArr` is a view of a fixed hardware region.
use vstd::prelude::*;
use crate::heap::{alloc_items, alloc_spec, free_spec, lemma_alloc_too_large, AllocError, Heap};
use crate::ptr::Ptr;

verus! {

/// Owns one chunk sized for a fixed number of `T`. Its length is reported in
/// bytes, not elements. Element access is unchecked: `element_ptr` computes an
/// address for any index. The storage goes back through `free`.
pub struct Arr<T> {
    ptr: Ptr<T>,
    len: u32,
}

impl<T> Arr<T> {
    /// The payload address the array owns.
    pub closed spec fn addr(&self) -> u32 {
        self.ptr.num
    }

    /// The length of the storage in bytes.
    pub closed spec fn byte_len(&self) -> u32 {
        self.len
    }

    /// Storage for `len` values of `T`, or `Exhausted` when no free chunk fits
    /// `len * size_of::<T>()` bytes.
    pub fn new(heap: &mut Heap, len: u32) -> (r: Result<Arr<T>, AllocError>)
        requires
            old(heap)@.wf(),
        ensures
            final(heap)@ == alloc_spec(old(heap)@, vstd::layout::size_of::<T>() * len).0,
            final(heap)@.wf(),
            match r {
                Ok(a) => a.addr() == alloc_spec(old(heap)@, vstd::layout::size_of::<T>() * len).1
                    && a.addr() != 0 && a.byte_len() == vstd::layout::size_of::<T>() * len,
                Err(e) => e == AllocError::Exhausted && alloc_spec(
                    old(heap)@,
                    vstd::layout::size_of::<T>() * len,
                ).1 == 0,
            },
    {
        let size = core::mem::size_of::<T>() as u128;
        assert(size * (len as u128) <= 0xffff_ffff_ffff_ffffu128 * 0xffff_ffffu128) by (nonlinear_arith)
            requires
                size <= 0xffff_ffff_ffff_ffffu128,
                len <= 0xffff_ffffu32,
        ;
        let bytes: u128 = size * (len as u128);
        if bytes > u32::MAX as u128 {
            proof {
                lemma_alloc_too_large(heap@, bytes as int);
            }
            return Err(AllocError::Exhausted);
        }
        let ptr = alloc_items::<T>(heap, len);
        if ptr.is_null() {
            Err(AllocError::Exhausted)
        } else {
            Ok(Arr { ptr, len: bytes as u32 })
        }
    }

    /// The length of the storage in bytes (element count times element size).
    pub fn len(&self) -> (r: u32)
        ensures
            r == self.byte_len(),
    {
        self.len
    }

    /// The address of element `i`, without a bounds check.
    pub fn element_ptr(&self, i: u32) -> (r: Ptr<T>)
        requires
            self.addr() + i * vstd::layout::size_of::<T>() <= u32::MAX,
        ensures
            r.num == self.addr() + i * vstd::layout::size_of::<T>(),
    {
        proof {
            assert(0 <= i * vstd::layout::size_of::<T>()) by (nonlinear_arith);
        }
        let size = core::mem::size_of::<T>() as u64;
        assert((i as u64) * size <= u32::MAX) by (nonlinear_arith)
            requires
                self.addr() + i * vstd::layout::size_of::<T>() <= u32::MAX,
                size == vstd::layout::size_of::<T>(),
        ;
        Ptr::from_u32(self.ptr.num + ((i as u64) * size) as u32)
    }

    /// Give the storage back to `heap`, which must be the heap it came from.
    pub fn free(self, heap: &mut Heap)
        requires
            old(heap)@.wf(),
            old(heap)@.allocated(self.addr() as int),
        ensures
            final(heap)@ == free_spec(old(heap)@, self.addr() as int),
            final(heap)@.wf(),
    {
        let mut ptr = self.ptr;
        crate::heap::free(heap, &mut ptr);
    }
}

/// A view of `len` values of `T` at a fixed address, such as a region of video
/// or object memory. It owns nothing.
pub struct StaticArr<T> {
    ptr: Ptr<T>,
    len: u32,
}

impl<T> Clone for StaticArr<T> {
    fn clone(&self) -> (r: Self)
        ensures
            r.as_ptr_spec() == self.as_ptr_spec(),
            r.len_spec() == self.len_spec(),
    {
        StaticArr { ptr: self.ptr, len: self.len }
    }
}

impl<T> Copy for StaticArr<T> {

}

impl<T> StaticArr<T> {
    pub closed spec fn as_ptr_spec(&self) -> u32 {
        self.ptr.num
    }

    pub closed spec fn len_spec(&self) -> u32 {
        self.len
    }

    /// The view of `len` values at `ptr`.
    pub fn new(ptr: Ptr<T>, len: u32) -> (r: StaticArr<T>)
        ensures
            r.as_ptr_spec() == ptr.num,
            r.len_spec() == len,
    {
        StaticArr { ptr, len }
    }

    /// The number of values in the view.
    pub fn len(&self) -> (r: u32)
        ensures
            r == self.len_spec(),
    {
        self.len
    }

    /// The base address.
    pub fn as_ptr(&self) -> (r: Ptr<T>)
        ensures
            r.num == self.as_ptr_spec(),
    {
        self.ptr
    }

    /// The address of element `i` (`base + i * size_of::<T>()`), without a
    /// bounds check.
    pub fn element_ptr(&self, i: i32) -> (r: Ptr<T>)
        requires
            0 <= self.as_ptr_spec() + i * vstd::layout::size_of::<T>() <= u32::MAX,
        ensures
            r.num == self.as_ptr_spec() + i * vstd::layout::size_of::<T>(),
    {
        self.ptr.offset(i)
    }
}

} // verus!
