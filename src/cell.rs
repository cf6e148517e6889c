//! A register backed by in-memory cells, one per element, for testing code
//! that uses registers without hardware. Its read and write tiers are type arguments,
//! so it offers only the operations that its tiers allow.
use vstd::prelude::*;
use core::marker::PhantomData;
use crate::access::{Access, IsSafe, IsUnsafe};
use crate::array::{ArrayElement, ArrayIter};
use crate::layout::{DataType, ValueType};
use crate::peripheral::ResolvedRegister;
use crate::register::{
    ArrayRead, ArrayRegister, ArrayUnsafeRead, ArrayUnsafeWrite, ArrayWrite, OutOfBounds, Read,
    Register, UnsafeRead, UnsafeWrite, Write,
};

verus! {

/// `value` cut to the width of `ty`, as a register of that type stores it.
pub open spec fn truncate(ty: ValueType, value: u64) -> u64 {
    match ty {
        ValueType::U8 => value as u8 as u64,
        ValueType::U16 => value as u16 as u64,
        ValueType::U32 => value as u32 as u64,
        ValueType::U64 => value,
    }
}

fn truncate_exec(ty: ValueType, value: u64) -> (r: u64)
    ensures
        r == truncate(ty, value),
{
    match ty {
        ValueType::U8 => value as u8 as u64,
        ValueType::U16 => value as u16 as u64,
        ValueType::U32 => value as u32 as u64,
        ValueType::U64 => value,
    }
}

/// A register whose state is one cell per element. `RA` and `WA` are the
/// tiers of its reads and writes.
pub struct CellRegister<RA: Access, WA: Access> {
    cells: Vec<u64>,
    value_type: ValueType,
    array: bool,
    tiers: PhantomData<(RA, WA)>,
}

impl<RA: Access, WA: Access> View for CellRegister<RA, WA> {
    type V = Seq<u64>;

    closed spec fn view(&self) -> Seq<u64> {
        self.cells@
    }
}

impl<RA: Access, WA: Access> CellRegister<RA, WA> {
    #[verifier::type_invariant]
    spec fn shaped(&self) -> bool {
        &&& self.array || self.cells@.len() == 1
        &&& forall|i: int|
            0 <= i < self.cells@.len() ==> #[trigger] self.cells@[i] == truncate(
                self.value_type,
                self.cells@[i],
            )
    }

    pub closed spec fn spec_value_type(&self) -> ValueType {
        self.value_type
    }

    pub closed spec fn spec_array(&self) -> bool {
        self.array
    }

    /// A scalar register holding `value`.
    pub fn scalar(value_type: ValueType, value: u64) -> (r: Self)
        ensures
            r@ == seq![truncate(value_type, value)],
            r.spec_value_type() == value_type,
            !r.spec_array(),
    {
        let mut cells: Vec<u64> = Vec::new();
        cells.push(truncate_exec(value_type, value));
        CellRegister { cells, value_type, array: false, tiers: PhantomData }
    }

    /// An array register whose elements hold `values`.
    pub fn array(value_type: ValueType, values: &Vec<u64>) -> (r: Self)
        ensures
            r@.len() == values@.len(),
            forall|i: int| 0 <= i < values@.len() ==> #[trigger] r@[i] == truncate(value_type, values@[i]),
            r.spec_value_type() == value_type,
            r.spec_array(),
    {
        let mut cells: Vec<u64> = Vec::new();
        let mut i: usize = 0;
        while i < values.len()
            invariant
                i <= values@.len(),
                cells@.len() == i,
                forall|j: int| 0 <= j < i ==> #[trigger] cells@[j] == truncate(value_type, values@[j]),
            decreases values@.len() - i,
        {
            cells.push(truncate_exec(value_type, values[i]));
            i += 1;
        }
        proof {
            assert forall|j: int| 0 <= j < cells@.len() implies #[trigger] cells@[j] == truncate(
                value_type,
                cells@[j],
            ) by {
                let v = values@[j];
                match value_type {
                    ValueType::U8 => assert(v as u8 as u64 as u8 as u64 == v as u8 as u64) by (bit_vector),
                    ValueType::U16 => assert(v as u16 as u64 as u16 as u64 == v as u16 as u64) by (bit_vector),
                    ValueType::U32 => assert(v as u32 as u64 as u32 as u64 == v as u32 as u64) by (bit_vector),
                    ValueType::U64 => {},
                }
            }
        }
        CellRegister { cells, value_type, array: true, tiers: PhantomData }
    }

    /// A cell register for the resolved register `reg`, holding `values`.
    /// `None` when the tiers `RA` and `WA` are not the register's own, or
    /// when `values` does not hold exactly one value per element.
    pub fn for_register(reg: &ResolvedRegister, values: &Vec<u64>) -> (r: Option<Self>)
        ensures
            r is Some <==> RA::spec_tier() == reg.access.read && WA::spec_tier() == reg.access.write
                && values@.len() == reg.data_type.spec_len(),
            r matches Some(f) ==> {
                &&& f.spec_value_type() == reg.data_type.value_type()
                &&& f.spec_array() == reg.data_type.is_array()
                &&& f@.len() == values@.len()
                &&& forall|i: int|
                    0 <= i < values@.len() ==> #[trigger] f@[i] == truncate(
                        reg.data_type.value_type(),
                        values@[i],
                    )
            },
    {
        if RA::tier() != reg.access.read || WA::tier() != reg.access.write {
            return None;
        }
        if values.len() != reg.data_type.len() {
            return None;
        }
        match reg.data_type {
            DataType::Scalar(vt) => Some(Self::scalar(vt, values[0])),
            DataType::Array(vt, _) => Some(Self::array(vt, values)),
        }
    }

    pub fn value_type(&self) -> (r: ValueType)
        ensures
            r == self.spec_value_type(),
    {
        self.value_type
    }

    /// The element at `index`, or `None` when `index` is out of range.
    pub fn get<'a>(&'a self, index: usize) -> (r: Option<ArrayElement<'a, Self>>)
        ensures
            r is Some <==> index < self@.len(),
            r matches Some(e) ==> e.spec_index() == index && e.spec_register() == *self,
    {
        ArrayElement::new(self, index)
    }

    /// An iterator over all elements, from index 0.
    pub fn into_iter<'a>(&'a self) -> (r: ArrayIter<'a, Self>)
        ensures
            r.spec_index() == 0,
            r.spec_register() == *self,
    {
        ArrayIter::new(self)
    }

    fn load(&self, index: usize) -> (r: Option<u64>)
        ensures
            r is Some <==> index < self@.len(),
            r matches Some(v) ==> v == self@[index as int],
    {
        if index >= self.cells.len() {
            return None;
        }
        Some(self.cells[index])
    }

    fn store(&mut self, index: usize, value: u64) -> (r: Result<(), OutOfBounds>)
        ensures
            r is Ok <==> index < old(self)@.len(),
            r is Ok ==> old(self).writes_as(*final(self), index as nat, value),
            r is Err ==> *final(self) == *old(self),
    {
        proof {
            use_type_invariant(&*self);
        }
        if index >= self.cells.len() {
            return Err(OutOfBounds);
        }
        let stored = truncate_exec(self.value_type, value);
        proof {
            match self.value_type {
                ValueType::U8 => assert(value as u8 as u64 as u8 as u64 == value as u8 as u64) by (bit_vector),
                ValueType::U16 => assert(value as u16 as u64 as u16 as u64 == value as u16 as u64) by (bit_vector),
                ValueType::U32 => assert(value as u32 as u64 as u32 as u64 == value as u32 as u64) by (bit_vector),
                ValueType::U64 => {},
            }
        }
        let mut cells: Vec<u64> = Vec::new();
        cells.push(stored);
        core::mem::swap(&mut cells, &mut self.cells);
        cells.set(index, stored);
        self.cells = cells;
        Ok(())
    }
}

impl<RA: IsSafe, WA: Access> CellRegister<RA, WA> {
    /// Reads element `index`; `None` when it is out of range.
    pub fn read_at(&self, index: usize) -> (r: Option<u64>)
        ensures
            r is Some <==> index < self@.len(),
            r matches Some(v) ==> v == self@[index as int],
    {
        self.load(index)
    }
}

impl<RA: IsUnsafe, WA: Access> CellRegister<RA, WA> {
    /// Reads element `index`; `None` when it is out of range. The caller
    /// upholds the register's hardware-specific requirements.
    pub fn unsafe_read_at(&self, index: usize) -> (r: Option<u64>)
        ensures
            r is Some <==> index < self@.len(),
            r matches Some(v) ==> v == self@[index as int],
    {
        self.load(index)
    }
}

impl<RA: Access, WA: IsSafe> CellRegister<RA, WA> {
    /// Writes `value` to element `index`; `OutOfBounds` when it is out of
    /// range, leaving the register as it was.
    pub fn write_at(&mut self, index: usize, value: u64) -> (r: Result<(), OutOfBounds>)
        ensures
            r is Ok <==> index < old(self)@.len(),
            r is Ok ==> old(self).writes_as(*final(self), index as nat, value),
            r is Err ==> *final(self) == *old(self),
    {
        self.store(index, value)
    }
}

impl<RA: Access, WA: IsUnsafe> CellRegister<RA, WA> {
    /// Writes `value` to element `index`; `OutOfBounds` when it is out of
    /// range, leaving the register as it was. The caller upholds the
    /// register's hardware-specific requirements.
    pub fn unsafe_write_at(&mut self, index: usize, value: u64) -> (r: Result<(), OutOfBounds>)
        ensures
            r is Ok <==> index < old(self)@.len(),
            r is Ok ==> old(self).writes_as(*final(self), index as nat, value),
            r is Err ==> *final(self) == *old(self),
    {
        self.store(index, value)
    }
}

impl<RA: Access, WA: Access> Register for CellRegister<RA, WA> {
    open spec fn spec_len(&self) -> nat {
        self@.len()
    }

    open spec fn spec_scalar(&self) -> bool {
        !self.spec_array()
    }

    open spec fn reads_as(&self, index: nat, value: u64) -> bool {
        index < self@.len() && value == self@[index as int]
    }

    open spec fn writes_as(&self, after: Self, index: nat, value: u64) -> bool {
        &&& index < self@.len()
        &&& after@ == self@.update(index as int, truncate(self.spec_value_type(), value))
        &&& after.spec_value_type() == self.spec_value_type()
        &&& after.spec_array() == self.spec_array()
    }

    fn len(&self) -> (r: usize) {
        self.cells.len()
    }
}

impl<RA: Access, WA: Access> ArrayRegister for CellRegister<RA, WA> {}

impl<RA: IsSafe, WA: Access> ArrayRead for CellRegister<RA, WA> {
    fn read_unchecked(&self, index: usize) -> (r: u64) {
        match self.read_at(index) {
            Some(v) => v,
            None => 0,
        }
    }
}

impl<RA: IsUnsafe, WA: Access> ArrayUnsafeRead for CellRegister<RA, WA> {
    fn read_unchecked(&self, index: usize) -> (r: u64) {
        match self.unsafe_read_at(index) {
            Some(v) => v,
            None => 0,
        }
    }
}

impl<RA: Access, WA: IsSafe> ArrayWrite for CellRegister<RA, WA> {
    fn write_unchecked(&mut self, index: usize, value: u64) {
        let _ = self.write_at(index, value);
    }
}

impl<RA: Access, WA: IsUnsafe> ArrayUnsafeWrite for CellRegister<RA, WA> {
    fn write_unchecked(&mut self, index: usize, value: u64) {
        let _ = self.unsafe_write_at(index, value);
    }
}

impl<RA: IsSafe, WA: Access> Read for CellRegister<RA, WA> {
    fn read(&self) -> (r: u64) {
        proof {
            use_type_invariant(self);
        }
        match self.read_at(0) {
            Some(v) => v,
            None => 0,
        }
    }
}

impl<RA: IsUnsafe, WA: Access> UnsafeRead for CellRegister<RA, WA> {
    fn read(&self) -> (r: u64) {
        proof {
            use_type_invariant(self);
        }
        match self.unsafe_read_at(0) {
            Some(v) => v,
            None => 0,
        }
    }
}

impl<RA: Access, WA: IsSafe> Write for CellRegister<RA, WA> {
    fn write(&mut self, value: u64) {
        proof {
            use_type_invariant(&*self);
        }
        let _ = self.write_at(0, value);
    }
}

impl<RA: Access, WA: IsUnsafe> UnsafeWrite for CellRegister<RA, WA> {
    fn write(&mut self, value: u64) {
        proof {
            use_type_invariant(&*self);
        }
        let _ = self.unsafe_write_at(0, value);
    }
}

/// Writing a value that fits the register's type to a scalar cell register
/// and reading it back gives that value.
pub proof fn lemma_write_then_read<RA: Access, WA: Access>(
    before: CellRegister<RA, WA>,
    after: CellRegister<RA, WA>,
    value: u64,
)
    requires
        before.spec_scalar(),
        before.writes_as(after, 0, value),
        value == truncate(before.spec_value_type(), value),
    ensures
        after.spec_scalar(),
        after.reads_as(0, value),
        forall|v: u64| after.reads_as(0, v) ==> v == value,
{
}

} // verus!
