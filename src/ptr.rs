use vstd::prelude::*;

verus! {

/// A typed raw address. The address is a plain number; nothing here checks that
/// it points at a live `T`. Reading or writing through it happens outside the
/// verified library.
pub struct Ptr<T> {
    pub num: u32,
    pub marker: core::marker::PhantomData<T>,
}

impl<T> Clone for Ptr<T> {
    fn clone(&self) -> (r: Self)
        ensures
            r.num == self.num,
    {
        Ptr { num: self.num, marker: core::marker::PhantomData }
    }
}

impl<T> Copy for Ptr<T> {

}

impl<T> Ptr<T> {
    /// The address `i`.
    pub fn from_u32(i: u32) -> (r: Self)
        ensures
            r.num == i,
    {
        Ptr { num: i, marker: core::marker::PhantomData }
    }

    /// The null address, zero.
    pub fn null() -> (r: Self)
        ensures
            r.num == 0,
    {
        Ptr { num: 0, marker: core::marker::PhantomData }
    }

    /// The same address, read as pointing at a `S`. Nothing is converted.
    pub fn transmute<S>(self) -> (r: Ptr<S>)
        ensures
            r.num == self.num,
    {
        Ptr { num: self.num, marker: core::marker::PhantomData }
    }

    pub fn is_null(&self) -> (r: bool)
        ensures
            r == (self.num == 0),
    {
        self.num == 0
    }

    /// The address `n` elements of `T` further on (or back, for negative `n`).
    pub fn offset(self, n: i32) -> (r: Self)
        requires
            0 <= self.num + n * vstd::layout::size_of::<T>() <= u32::MAX,
        ensures
            r.num == self.num + n * vstd::layout::size_of::<T>(),
    {
        let size = core::mem::size_of::<T>() as u64;
        if n >= 0 {
            let k = n as u64;
            assert(k * size <= u32::MAX && k * size == n * vstd::layout::size_of::<T>()) by (nonlinear_arith)
                requires
                    0 <= self.num + n * vstd::layout::size_of::<T>() <= u32::MAX,
                    k == n,
                    size == vstd::layout::size_of::<T>(),
                    self.num >= 0,
            ;
            Ptr { num: self.num + (k * size) as u32, marker: core::marker::PhantomData }
        } else {
            let k = (-(n as i64)) as u64;
            assert(k * size <= self.num && k * size == -(n * vstd::layout::size_of::<T>())) by (nonlinear_arith)
                requires
                    0 <= self.num + n * vstd::layout::size_of::<T>(),
                    k == -n,
                    size == vstd::layout::size_of::<T>(),
            ;
            Ptr { num: self.num - (k * size) as u32, marker: core::marker::PhantomData }
        }
    }

    /// A copy of this address.
    pub fn cpy(&self) -> (r: Self)
        ensures
            r.num == self.num,
    {
        Ptr { num: self.num, marker: core::marker::PhantomData }
    }
}

} // verus!
