//! Address computation for registers reached through memory-mapped I/O.
//! The loads and stores themselves are made by the caller, at the addresses
//! computed here.
use vstd::prelude::*;
use crate::layout::{span, BusAdapter, DataType};
use crate::peripheral::{Peripheral, ResolvedRegister};

verus! {

/// A pointer to a peripheral's registers. Each value stands for one fixed
/// address for as long as it lives.
pub trait MmioPointer: Copy {
    spec fn spec_address(&self) -> nat;

    fn pointer(self) -> (r: usize)
        ensures
            r == self.spec_address(),
    ;
}

/// A pointer whose address is held in memory.
#[derive(Clone, Copy, Debug, PartialEq, Eq, Structural)]
pub struct DynPointer {
    pointer: usize,
}

impl DynPointer {
    pub fn new(pointer: usize) -> (r: DynPointer)
        ensures
            r.spec_address() == pointer,
    {
        DynPointer { pointer }
    }
}

impl MmioPointer for DynPointer {
    closed spec fn spec_address(&self) -> nat {
        self.pointer as nat
    }

    fn pointer(self) -> (r: usize) {
        self.pointer
    }
}

/// A pointer whose address is fixed by its type.
#[derive(Clone, Copy, Debug)]
pub struct ConstPointer<const ADDRESS: usize>;

impl<const ADDRESS: usize> MmioPointer for ConstPointer<ADDRESS> {
    open spec fn spec_address(&self) -> nat {
        ADDRESS as nat
    }

    fn pointer(self) -> (r: usize) {
        ADDRESS
    }
}

/// Address of element `index` of register `reg` of a peripheral at `base`.
pub open spec fn element_address<B: BusAdapter>(
    base: nat,
    bus: B,
    reg: ResolvedRegister,
    index: nat,
) -> int {
    base + reg.offset + bus.spec_size(reg.data_type.value_type()) * index
}

/// A peripheral reached through a pointer. Its whole register block lies
/// below the largest address.
pub struct Mmio<P: MmioPointer, B: BusAdapter> {
    pointer: P,
    peripheral: Peripheral<B>,
}

impl<P: MmioPointer, B: BusAdapter> Mmio<P, B> {
    #[verifier::type_invariant]
    spec fn addressable(&self) -> bool {
        forall|k: int|
            0 <= k < self.peripheral.spec_registers().len() ==> self.pointer.spec_address()
                + (#[trigger] self.peripheral.spec_registers()[k]).offset + span(
                &self.peripheral.spec_bus(),
                self.peripheral.spec_registers()[k].data_type,
            ) <= usize::MAX
    }

    pub closed spec fn spec_pointer(&self) -> P {
        self.pointer
    }

    pub closed spec fn spec_peripheral(&self) -> &Peripheral<B> {
        &self.peripheral
    }
}

proof fn lemma_element_within(size: nat, index: nat, len: nat)
    requires
        index < len,
    ensures
        size * index + size <= size * len,
{
    assert(size * index + size <= size * len) by (nonlinear_arith)
        requires
            index < len,
    ;
}

impl<P: MmioPointer, B: BusAdapter> Mmio<P, B> {
    /// Places `peripheral` at `pointer`. `None` when some register would end
    /// past the largest address.
    pub fn new(pointer: P, peripheral: Peripheral<B>) -> (r: Option<Self>)
        ensures
            r is Some <==> forall|k: int|
                0 <= k < peripheral.spec_registers().len() ==> pointer.spec_address()
                    + (#[trigger] peripheral.spec_registers()[k]).offset + span(
                    &peripheral.spec_bus(),
                    peripheral.spec_registers()[k].data_type,
                ) <= usize::MAX,
            r matches Some(m) ==> m.spec_pointer() == pointer && *m.spec_peripheral()
                == peripheral,
    {
        let base = pointer.pointer();
        let regs = peripheral.registers();
        let bus = peripheral.bus();
        let mut k: usize = 0;
        while k < regs.len()
            invariant
                k <= regs@.len(),
                regs@ == peripheral.spec_registers(),
                *bus == peripheral.spec_bus(),
                base == pointer.spec_address(),
                forall|j: int|
                    0 <= j < k ==> base + (#[trigger] regs@[j]).offset + span(
                        bus,
                        regs@[j].data_type,
                    ) <= usize::MAX,
            decreases regs@.len() - k,
        {
            let reg = &regs[k];
            let size = bus.size(reg.data_type.value());
            let end = match reg.data_type.len().checked_mul(size) {
                Some(bytes) => match base.checked_add(reg.offset) {
                    Some(start) => start.checked_add(bytes),
                    None => None,
                },
                None => None,
            };
            proof {
                let n = reg.data_type.spec_len();
                assert(span(bus, reg.data_type) == n * size);
                assert(n * size >= 0) by (nonlinear_arith)
                    requires
                        n >= 0,
                        size >= 0,
                ;
            }
            if end.is_none() {
                return None;
            }
            k += 1;
        }
        Some(Mmio { pointer, peripheral })
    }

    pub fn peripheral(&self) -> (r: &Peripheral<B>)
        ensures
            r == self.spec_peripheral(),
    {
        &self.peripheral
    }

    pub fn pointer(&self) -> (r: P)
        ensures
            r == self.spec_pointer(),
    {
        self.pointer
    }

    /// Address of element `index` of register `reg` (0 for a scalar
    /// register); `None` when either is out of range.
    pub fn address(&self, reg: usize, index: usize) -> (r: Option<usize>)
        ensures
            r is Some <==> reg < self.spec_peripheral().spec_registers().len() && index
                < self.spec_peripheral().spec_registers()[reg as int].data_type.spec_len(),
            r matches Some(a) ==> a == element_address(
                self.spec_pointer().spec_address(),
                self.spec_peripheral().spec_bus(),
                self.spec_peripheral().spec_registers()[reg as int],
                index as nat,
            ),
    {
        proof {
            use_type_invariant(self);
        }
        let regs = self.peripheral.registers();
        if reg >= regs.len() {
            return None;
        }
        let r = &regs[reg];
        if index >= r.data_type.len() {
            return None;
        }
        let bus = self.peripheral.bus();
        let size = bus.size(r.data_type.value());
        proof {
            let n = r.data_type.spec_len();
            match r.data_type {
                DataType::Scalar(_) => {
                    assert(size == bus.spec_size(r.data_type.value_type()));
                    assert(n == 1);
                    assert(span(bus, r.data_type) == size);
                },
                DataType::Array(_, m) => assert(span(bus, r.data_type) == n * size),
            }
            lemma_element_within(size as nat, index as nat, n);
            assert(size * index >= 0) by (nonlinear_arith)
                requires
                    size >= 0,
                    index >= 0,
            ;
            assert(self.peripheral.spec_registers()[reg as int] == *r);
        }
        Some(self.pointer.pointer() + r.offset + size * index)
    }

    /// Address of element `index` of register `reg`, whose bounds the caller
    /// has already established.
    pub fn address_unchecked(&self, reg: usize, index: usize) -> (r: usize)
        requires
            reg < self.spec_peripheral().spec_registers().len(),
            index < self.spec_peripheral().spec_registers()[reg as int].data_type.spec_len(),
        ensures
            r == element_address(
                self.spec_pointer().spec_address(),
                self.spec_peripheral().spec_bus(),
                self.spec_peripheral().spec_registers()[reg as int],
                index as nat,
            ),
    {
        match self.address(reg, index) {
            Some(a) => a,
            None => 0,
        }
    }
}

} // verus!
