//! A register whose reads and writes are functions supplied by the caller,
//! over state of the caller's choosing: a test double for code that uses
//! registers. Its read and write tiers are type arguments, so it offers only
//! the operations that its tiers allow.
use vstd::prelude::*;
use core::marker::PhantomData;
use crate::access::{Access, IsSafe, IsUnsafe};
use crate::array::{ArrayElement, ArrayIter};
use crate::layout::DataType;
use crate::register::{
    ArrayRead, ArrayRegister, ArrayUnsafeRead, ArrayUnsafeWrite, ArrayWrite, OutOfBounds, Read,
    Register, UnsafeRead, UnsafeWrite, Write,
};

verus! {

/// A register of type `data_type` whose element `i` is read by
/// `read(data, i)` and written by `write(data, i, value)`. Both functions are
/// called only with in-range indices (0 for a scalar register), and there
/// they must succeed.
pub struct FakeRegister<D: Copy, RF, WF, RA: Access, WA: Access> where
    RF: Fn(D, usize) -> Option<u64>,
    WF: Fn(D, usize, u64) -> Result<(), OutOfBounds>,
 {
    data: D,
    data_type: DataType,
    read: RF,
    write: WF,
    tiers: PhantomData<(RA, WA)>,
}

/// `read` and `write` may be called with every in-range index of a register
/// of type `dt`, and there they succeed.
pub open spec fn functions_total<D, RF, WF>(data: D, dt: DataType, read: RF, write: WF) -> bool where
    RF: Fn(D, usize) -> Option<u64>,
    WF: Fn(D, usize, u64) -> Result<(), OutOfBounds>,
 {
    &&& forall|i: usize| i < dt.spec_len() ==> #[trigger] read.requires((data, i))
    &&& forall|i: usize, r: Option<u64>|
        i < dt.spec_len() && #[trigger] read.ensures((data, i), r) ==> r is Some
    &&& forall|i: usize, v: u64| i < dt.spec_len() ==> #[trigger] write.requires((data, i, v))
    &&& forall|i: usize, v: u64, r: Result<(), OutOfBounds>|
        i < dt.spec_len() && #[trigger] write.ensures((data, i, v), r) ==> r is Ok
}

impl<D: Copy, RF, WF, RA: Access, WA: Access> FakeRegister<D, RF, WF, RA, WA> where
    RF: Fn(D, usize) -> Option<u64>,
    WF: Fn(D, usize, u64) -> Result<(), OutOfBounds>,
 {
    #[verifier::type_invariant]
    spec fn total(&self) -> bool {
        functions_total(self.data, self.data_type, self.read, self.write)
    }

    pub closed spec fn spec_data(&self) -> D {
        self.data
    }

    pub closed spec fn spec_data_type(&self) -> DataType {
        self.data_type
    }

    pub closed spec fn spec_read(&self) -> RF {
        self.read
    }

    pub closed spec fn spec_write(&self) -> WF {
        self.write
    }

    pub fn new(data: D, data_type: DataType, read: RF, write: WF) -> (r: Self)
        requires
            functions_total(data, data_type, read, write),
        ensures
            r.spec_data() == data,
            r.spec_data_type() == data_type,
            r.spec_read() == read,
            r.spec_write() == write,
    {
        FakeRegister { data, data_type, read, write, tiers: PhantomData }
    }

    /// The element at `index`, or `None` when `index` is out of range.
    pub fn get<'a>(&'a self, index: usize) -> (r: Option<ArrayElement<'a, Self>>)
        ensures
            r is Some <==> index < self.spec_data_type().spec_len(),
            r matches Some(e) ==> e.spec_index() == index && e.spec_register() == *self,
    {
        ArrayElement::new(self, index)
    }

    /// An iterator over all elements, from index 0.
    pub fn into_iter<'a>(&'a self) -> (r: ArrayIter<'a, Self>)
        ensures
            r.spec_index() == 0,
            r.spec_register() == *self,
    {
        ArrayIter::new(self)
    }

    fn load(&self, index: usize) -> (r: Option<u64>)
        ensures
            r is Some <==> index < self.spec_data_type().spec_len(),
            r matches Some(v) ==> self.spec_read().ensures((self.spec_data(), index), Some(v)),
    {
        proof {
            use_type_invariant(self);
        }
        if index >= self.data_type.len() {
            return None;
        }
        (self.read)(self.data, index)
    }

    fn store(&self, index: usize, value: u64) -> (r: Result<(), OutOfBounds>)
        ensures
            r is Ok <==> index < self.spec_data_type().spec_len(),
            r is Ok ==> self.spec_write().ensures((self.spec_data(), index, value), Ok(())),
    {
        proof {
            use_type_invariant(self);
        }
        if index >= self.data_type.len() {
            return Err(OutOfBounds);
        }
        let r = (self.write)(self.data, index, value);
        proof {
            if let Ok(u) = r {
                assert(u == ());
                assert(r == Ok::<(), OutOfBounds>(()));
            }
        }
        r
    }
}

impl<D: Copy, RF, WF, RA: IsSafe, WA: Access> FakeRegister<D, RF, WF, RA, WA> where
    RF: Fn(D, usize) -> Option<u64>,
    WF: Fn(D, usize, u64) -> Result<(), OutOfBounds>,
 {
    /// Reads element `index` through the read function; `None` when `index`
    /// is out of range, without calling it.
    pub fn read_at(&self, index: usize) -> (r: Option<u64>)
        ensures
            r is Some <==> index < self.spec_data_type().spec_len(),
            r matches Some(v) ==> self.spec_read().ensures((self.spec_data(), index), Some(v)),
    {
        self.load(index)
    }
}

impl<D: Copy, RF, WF, RA: IsUnsafe, WA: Access> FakeRegister<D, RF, WF, RA, WA> where
    RF: Fn(D, usize) -> Option<u64>,
    WF: Fn(D, usize, u64) -> Result<(), OutOfBounds>,
 {
    /// Reads element `index` through the read function; `None` when `index`
    /// is out of range, without calling it. The caller upholds the
    /// register's hardware-specific requirements.
    pub fn unsafe_read_at(&self, index: usize) -> (r: Option<u64>)
        ensures
            r is Some <==> index < self.spec_data_type().spec_len(),
            r matches Some(v) ==> self.spec_read().ensures((self.spec_data(), index), Some(v)),
    {
        self.load(index)
    }
}

impl<D: Copy, RF, WF, RA: Access, WA: IsSafe> FakeRegister<D, RF, WF, RA, WA> where
    RF: Fn(D, usize) -> Option<u64>,
    WF: Fn(D, usize, u64) -> Result<(), OutOfBounds>,
 {
    /// Writes `value` to element `index` through the write function;
    /// `OutOfBounds` when `index` is out of range, without calling it.
    pub fn write_at(&self, index: usize, value: u64) -> (r: Result<(), OutOfBounds>)
        ensures
            r is Ok <==> index < self.spec_data_type().spec_len(),
            r is Ok ==> self.spec_write().ensures((self.spec_data(), index, value), Ok(())),
    {
        self.store(index, value)
    }
}

impl<D: Copy, RF, WF, RA: Access, WA: IsUnsafe> FakeRegister<D, RF, WF, RA, WA> where
    RF: Fn(D, usize) -> Option<u64>,
    WF: Fn(D, usize, u64) -> Result<(), OutOfBounds>,
 {
    /// Writes `value` to element `index` through the write function;
    /// `OutOfBounds` when `index` is out of range, without calling it. The
    /// caller upholds the register's hardware-specific requirements.
    pub fn unsafe_write_at(&self, index: usize, value: u64) -> (r: Result<(), OutOfBounds>)
        ensures
            r is Ok <==> index < self.spec_data_type().spec_len(),
            r is Ok ==> self.spec_write().ensures((self.spec_data(), index, value), Ok(())),
    {
        self.store(index, value)
    }
}

impl<D: Copy, RF, WF, RA: Access, WA: Access> Register for FakeRegister<D, RF, WF, RA, WA> where
    RF: Fn(D, usize) -> Option<u64>,
    WF: Fn(D, usize, u64) -> Result<(), OutOfBounds>,
 {
    open spec fn spec_len(&self) -> nat {
        self.spec_data_type().spec_len()
    }

    open spec fn spec_scalar(&self) -> bool {
        !self.spec_data_type().is_array()
    }

    open spec fn reads_as(&self, index: nat, value: u64) -> bool {
        index < self.spec_len() && self.spec_read().ensures(
            (self.spec_data(), index as usize),
            Some(value),
        )
    }

    /// The state lies outside the register, so the register is unchanged.
    open spec fn writes_as(&self, after: Self, index: nat, value: u64) -> bool {
        &&& index < self.spec_len()
        &&& after == *self
        &&& self.spec_write().ensures((self.spec_data(), index as usize, value), Ok(()))
    }

    fn len(&self) -> (r: usize) {
        self.data_type.len()
    }
}

impl<D: Copy, RF, WF, RA: Access, WA: Access> ArrayRegister for FakeRegister<
    D,
    RF,
    WF,
    RA,
    WA,
> where RF: Fn(D, usize) -> Option<u64>, WF: Fn(D, usize, u64) -> Result<(), OutOfBounds> {

}

impl<D: Copy, RF, WF, RA: IsSafe, WA: Access> ArrayRead for FakeRegister<D, RF, WF, RA, WA> where
    RF: Fn(D, usize) -> Option<u64>,
    WF: Fn(D, usize, u64) -> Result<(), OutOfBounds>,
 {
    fn read_unchecked(&self, index: usize) -> (r: u64) {
        match self.read_at(index) {
            Some(v) => v,
            None => 0,
        }
    }
}

impl<D: Copy, RF, WF, RA: IsUnsafe, WA: Access> ArrayUnsafeRead for FakeRegister<
    D,
    RF,
    WF,
    RA,
    WA,
> where RF: Fn(D, usize) -> Option<u64>, WF: Fn(D, usize, u64) -> Result<(), OutOfBounds> {
    fn read_unchecked(&self, index: usize) -> (r: u64) {
        match self.unsafe_read_at(index) {
            Some(v) => v,
            None => 0,
        }
    }
}

impl<D: Copy, RF, WF, RA: Access, WA: IsSafe> ArrayWrite for FakeRegister<D, RF, WF, RA, WA> where
    RF: Fn(D, usize) -> Option<u64>,
    WF: Fn(D, usize, u64) -> Result<(), OutOfBounds>,
 {
    fn write_unchecked(&mut self, index: usize, value: u64) {
        let _ = self.write_at(index, value);
    }
}

impl<D: Copy, RF, WF, RA: Access, WA: IsUnsafe> ArrayUnsafeWrite for FakeRegister<
    D,
    RF,
    WF,
    RA,
    WA,
> where RF: Fn(D, usize) -> Option<u64>, WF: Fn(D, usize, u64) -> Result<(), OutOfBounds> {
    fn write_unchecked(&mut self, index: usize, value: u64) {
        let _ = self.unsafe_write_at(index, value);
    }
}

impl<D: Copy, RF, WF, RA: IsSafe, WA: Access> Read for FakeRegister<D, RF, WF, RA, WA> where
    RF: Fn(D, usize) -> Option<u64>,
    WF: Fn(D, usize, u64) -> Result<(), OutOfBounds>,
 {
    fn read(&self) -> (r: u64) {
        match self.read_at(0) {
            Some(v) => v,
            None => 0,
        }
    }
}

impl<D: Copy, RF, WF, RA: IsUnsafe, WA: Access> UnsafeRead for FakeRegister<D, RF, WF, RA, WA> where
    RF: Fn(D, usize) -> Option<u64>,
    WF: Fn(D, usize, u64) -> Result<(), OutOfBounds>,
 {
    fn read(&self) -> (r: u64) {
        match self.unsafe_read_at(0) {
            Some(v) => v,
            None => 0,
        }
    }
}

impl<D: Copy, RF, WF, RA: Access, WA: IsSafe> Write for FakeRegister<D, RF, WF, RA, WA> where
    RF: Fn(D, usize) -> Option<u64>,
    WF: Fn(D, usize, u64) -> Result<(), OutOfBounds>,
 {
    fn write(&mut self, value: u64) {
        let _ = self.write_at(0, value);
    }
}

impl<D: Copy, RF, WF, RA: Access, WA: IsUnsafe> UnsafeWrite for FakeRegister<D, RF, WF, RA, WA> where
    RF: Fn(D, usize) -> Option<u64>,
    WF: Fn(D, usize, u64) -> Result<(), OutOfBounds>,
 {
    fn write(&mut self, value: u64) {
        let _ = self.unsafe_write_at(0, value);
    }
}

} // verus!
