//! A validated peripheral: every register with its resolved offset, data
//! type, and access tiers.
use vstd::prelude::*;
use crate::descriptor::{
    direction_long_name, name_view, op_problem, resolve_access, tier_of, OperationError, PeripheralDescriptor,
    RegisterAccess, RegisterDescriptor,
};
use crate::layout::{
    fits_at, layout_valid, mismatches, placed_offset, resolve_offsets, span, BusAdapter, DataType, LayoutError,
    ValueType,
};

verus! {

/// Why a peripheral description is refused.
#[derive(Clone, Debug, PartialEq, Eq)]
pub enum DescriptorError {
    /// The peripheral does not allow a bus adapter, and the bus given
    /// transfers some value type at other than its own width.
    BusAdapterNotAllowed,
    /// The registers at these two indices (earlier, later) share a name.
    DuplicateName(usize, usize),
    /// The operation list of the register at this index is refused.
    Operation(usize, OperationError),
    /// The offsets do not resolve.
    Layout(LayoutError),
}

/// Registers `i` and `j` share a name.
pub open spec fn same_name(regs: Seq<RegisterDescriptor>, i: int, j: int) -> bool {
    regs[i].name@ == regs[j].name@
}

pub open spec fn names_unique(regs: Seq<RegisterDescriptor>) -> bool {
    forall|i: int, j: int| 0 <= i < j < regs.len() ==> !#[trigger] same_name(regs, i, j)
}

/// The operation list of `r` is accepted.
pub open spec fn operations_valid(r: RegisterDescriptor) -> bool {
    forall|i: int|
        0 <= i < r.operations@.len() ==> #[trigger] op_problem(
            name_view(r.long_name),
            r.operations@,
            i,
        ) is None
}

/// `bus` transfers every value type at that type's own width.
pub open spec fn is_direct<B: BusAdapter>(bus: &B) -> bool {
    forall|v: ValueType| #[trigger] bus.spec_size(v) == v.spec_bytes()
}

/// Every check that resolution makes passes.
pub open spec fn descriptor_valid<B: BusAdapter>(
    bus: &B,
    allow_bus_adapter: bool,
    regs: Seq<RegisterDescriptor>,
) -> bool {
    &&& allow_bus_adapter || is_direct(bus)
    &&& names_unique(regs)
    &&& forall|k: int| 0 <= k < regs.len() ==> operations_valid(#[trigger] regs[k])
    &&& layout_valid(bus, regs)
}

/// A register as resolved: where it is, what it holds, how it is accessed.
#[derive(Clone, Debug)]
pub struct ResolvedRegister {
    pub name: String,
    pub offset: usize,
    pub data_type: DataType,
    pub access: RegisterAccess,
}

/// A peripheral whose description passed every check, with the bus adapter
/// its offsets were resolved for.
pub struct Peripheral<B: BusAdapter> {
    bus: B,
    registers: Vec<ResolvedRegister>,
}

impl<B: BusAdapter> Peripheral<B> {
    pub closed spec fn spec_bus(&self) -> B {
        self.bus
    }

    pub closed spec fn spec_registers(&self) -> Seq<ResolvedRegister> {
        self.registers@
    }

    pub fn bus(&self) -> (r: &B)
        ensures
            *r == self.spec_bus(),
    {
        &self.bus
    }

    pub fn registers(&self) -> (r: &Vec<ResolvedRegister>)
        ensures
            r@ == self.spec_registers(),
    {
        &self.registers
    }

    /// Index of the register called `name`, if there is one.
    pub fn find(&self, name: &String) -> (r: Option<usize>)
        ensures
            r matches Some(i) ==> i < self.spec_registers().len()
                && self.spec_registers()[i as int].name@ == name@,
            r is None ==> forall|i: int|
                0 <= i < self.spec_registers().len() ==> #[trigger] self.spec_registers()[i].name@
                    != name@,
    {
        let mut i: usize = 0;
        while i < self.registers.len()
            invariant
                i <= self.registers@.len(),
                forall|j: int| 0 <= j < i ==> #[trigger] self.registers@[j].name@ != name@,
            decreases self.registers@.len() - i,
        {
            if self.registers[i].name == *name {
                return Some(i);
            }
            i += 1;
        }
        None
    }
}

fn bus_is_direct<B: BusAdapter>(bus: &B) -> (r: bool)
    ensures
        r == is_direct(bus),
{
    let b8 = bus.size(ValueType::U8) == 1;
    let b16 = bus.size(ValueType::U16) == 2;
    let b32 = bus.size(ValueType::U32) == 4;
    let b64 = bus.size(ValueType::U64) == 8;
    proof {
        if b8 && b16 && b32 && b64 {
            assert forall|v: ValueType| #[trigger] bus.spec_size(v) == v.spec_bytes() by {
                match v {
                    ValueType::U8 => {},
                    ValueType::U16 => {},
                    ValueType::U32 => {},
                    ValueType::U64 => {},
                }
            }
        } else if !b8 {
            assert(bus.spec_size(ValueType::U8) != ValueType::U8.spec_bytes());
        } else if !b16 {
            assert(bus.spec_size(ValueType::U16) != ValueType::U16.spec_bytes());
        } else if !b32 {
            assert(bus.spec_size(ValueType::U32) != ValueType::U32.spec_bytes());
        } else {
            assert(bus.spec_size(ValueType::U64) != ValueType::U64.spec_bytes());
        }
    }
    b8 && b16 && b32 && b64
}

/// Finds the first pair of registers, ordered by the later index and then by
/// the earlier one, that share a name.
fn find_duplicate(regs: &Vec<RegisterDescriptor>) -> (r: Option<(usize, usize)>)
    ensures
        r is None <==> names_unique(regs@),
        r matches Some((i, j)) ==> {
            &&& i < j < regs@.len()
            &&& same_name(regs@, i as int, j as int)
            &&& forall|a: int, b: int|
                0 <= a < b < regs@.len() && (b < j || (b == j && a < i)) ==> !#[trigger] same_name(
                    regs@,
                    a,
                    b,
                )
        },
{
    let mut j: usize = 0;
    while j < regs.len()
        invariant
            j <= regs@.len(),
            forall|a: int, b: int| 0 <= a < b < j ==> !#[trigger] same_name(regs@, a, b),
        decreases regs@.len() - j,
    {
        let mut i: usize = 0;
        while i < j
            invariant
                i <= j < regs@.len(),
                forall|a: int, b: int| 0 <= a < b < j ==> !#[trigger] same_name(regs@, a, b),
                forall|a: int| 0 <= a < i ==> !#[trigger] same_name(regs@, a, j as int),
            decreases j - i,
        {
            if regs[i].name == regs[j].name {
                assert(same_name(regs@, i as int, j as int));
                return Some((i, j));
            }
            i += 1;
        }
        j += 1;
    }
    None
}

impl PeripheralDescriptor {
    /// Checks the description and resolves every register's offset for
    /// `bus`: a peripheral that does not allow a bus adapter needs a bus
    /// that transfers each value type at its own width, register names must
    /// be unique, each operation list must be accepted, and the declared
    /// offsets must match the layout. The first failing check, in that
    /// order, is reported.
    pub fn resolve<B: BusAdapter + Copy>(&self, bus: B) -> (r: Result<Peripheral<B>, DescriptorError>)
        ensures
            r is Ok <==> descriptor_valid(&bus, self.allow_bus_adapter, self.registers@),
            r matches Err(DescriptorError::BusAdapterNotAllowed) <==> !self.allow_bus_adapter
                && !is_direct(&bus),
            r matches Err(DescriptorError::DuplicateName(i, j)) ==> {
                &&& self.allow_bus_adapter || is_direct(&bus)
                &&& i < j < self.registers@.len()
                &&& same_name(self.registers@, i as int, j as int)
                &&& forall|a: int, b: int|
                    0 <= a < b < self.registers@.len() && (b < j || (b == j && a < i))
                        ==> !#[trigger] same_name(self.registers@, a, b)
            },
            r matches Err(DescriptorError::Operation(k, e)) ==> {
                &&& self.allow_bus_adapter || is_direct(&bus)
                &&& names_unique(self.registers@)
                &&& k < self.registers@.len()
                &&& !operations_valid(self.registers@[k as int])
                &&& forall|m: int| 0 <= m < k ==> operations_valid(#[trigger] self.registers@[m])
                &&& exists|i: int|
                    0 <= i < self.registers@[k as int].operations@.len() && #[trigger] op_problem(
                        name_view(self.registers@[k as int].long_name),
                        self.registers@[k as int].operations@,
                        i,
                    ) == Some(e)
            },
            r matches Err(DescriptorError::Layout(e)) ==> {
                &&& self.allow_bus_adapter || is_direct(&bus)
                &&& names_unique(self.registers@)
                &&& forall|m: int|
                    0 <= m < self.registers@.len() ==> operations_valid(#[trigger] self.registers@[m])
                &&& !layout_valid(&bus, self.registers@)
                &&& e matches LayoutError::TooLarge(i) ==> i < self.registers@.len() && !fits_at(
                    &bus,
                    self.registers@,
                    i as nat,
                ) && forall|j: nat| j < i ==> #[trigger] fits_at(&bus, self.registers@, j)
                &&& e matches LayoutError::UnexpectedOffset(bad) ==> bad@ == mismatches(
                    &bus,
                    self.registers@,
                    self.registers@.len(),
                )
            },
            r matches Ok(p) ==> {
                &&& p.spec_bus() == bus
                &&& p.spec_registers().len() == self.registers@.len()
                &&& forall|k: int|
                    0 <= k < self.registers@.len() ==> {
                        let rr = #[trigger] p.spec_registers()[k];
                        let d = self.registers@[k];
                        &&& rr.name@ == d.name@
                        &&& rr.offset == placed_offset(&bus, self.registers@, k as nat)
                        &&& rr.offset + span(&bus, d.data_type) <= usize::MAX
                        &&& rr.data_type == d.data_type
                        &&& rr.access.read == tier_of(d.operations@, true)
                        &&& rr.access.write == tier_of(d.operations@, false)
                        &&& name_view(rr.access.read_long_name) == direction_long_name(
                            name_view(d.long_name),
                            d.operations@,
                            true,
                        )
                        &&& name_view(rr.access.write_long_name) == direction_long_name(
                            name_view(d.long_name),
                            d.operations@,
                            false,
                        )
                    }
            },
    {
        if !self.allow_bus_adapter && !bus_is_direct(&bus) {
            return Err(DescriptorError::BusAdapterNotAllowed);
        }
        if let Some((i, j)) = find_duplicate(&self.registers) {
            return Err(DescriptorError::DuplicateName(i, j));
        }
        let mut k: usize = 0;
        while k < self.registers.len()
            invariant
                k <= self.registers@.len(),
                names_unique(self.registers@),
                self.allow_bus_adapter || is_direct(&bus),
                forall|m: int| 0 <= m < k ==> operations_valid(#[trigger] self.registers@[m]),
            decreases self.registers@.len() - k,
        {
            let reg = &self.registers[k];
            match resolve_access(&reg.long_name, &reg.operations) {
                Ok(_) => {},
                Err(e) => {
                    proof {
                        let i = choose|i: int|
                            0 <= i < reg.operations@.len() && #[trigger] op_problem(
                                name_view(reg.long_name),
                                reg.operations@,
                                i,
                            ) == Some(e);
                        assert(op_problem(name_view(reg.long_name), reg.operations@, i) is Some);
                    }
                    return Err(DescriptorError::Operation(k, e));
                },
            }
            k += 1;
        }
        let offsets = match resolve_offsets(&bus, &self.registers) {
            Ok(o) => o,
            Err(e) => {
                return Err(DescriptorError::Layout(e));
            },
        };
        let mut registers: Vec<ResolvedRegister> = Vec::new();
        let mut k: usize = 0;
        while k < self.registers.len()
            invariant
                k <= self.registers@.len(),
                offsets@.len() == self.registers@.len(),
                registers@.len() == k,
                layout_valid(&bus, self.registers@),
                names_unique(self.registers@),
                forall|m: int|
                    0 <= m < self.registers@.len() ==> offsets@[m] == #[trigger] placed_offset(
                        &bus,
                        self.registers@,
                        m as nat,
                    ),
                forall|m: int| 0 <= m < self.registers@.len() ==> operations_valid(#[trigger] self.registers@[m]),
                forall|m: int|
                    0 <= m < k ==> {
                        let rr = #[trigger] registers@[m];
                        let d = self.registers@[m];
                        &&& rr.name@ == d.name@
                        &&& rr.offset == placed_offset(&bus, self.registers@, m as nat)
                        &&& rr.offset + span(&bus, d.data_type) <= usize::MAX
                        &&& rr.data_type == d.data_type
                        &&& rr.access.read == tier_of(d.operations@, true)
                        &&& rr.access.write == tier_of(d.operations@, false)
                        &&& name_view(rr.access.read_long_name) == direction_long_name(
                            name_view(d.long_name),
                            d.operations@,
                            true,
                        )
                        &&& name_view(rr.access.write_long_name) == direction_long_name(
                            name_view(d.long_name),
                            d.operations@,
                            false,
                        )
                    },
                self.allow_bus_adapter || is_direct(&bus),
            decreases self.registers@.len() - k,
        {
            let reg = &self.registers[k];
            let ghost kk: int = k as int;
            assert(0 <= kk < self.registers@.len());
            assert(offsets@[kk] == placed_offset(&bus, self.registers@, kk as nat));
            assert(fits_at(&bus, self.registers@, k as nat));
            let a = match resolve_access(&reg.long_name, &reg.operations) {
                Ok(a) => a,
                Err(e) => {
                    return Err(DescriptorError::Operation(k, e));
                },
            };
            registers.push(
                ResolvedRegister {
                    name: reg.name.clone(),
                    offset: offsets[k],
                    data_type: reg.data_type,
                    access: a,
                },
            );
            k += 1;
        }
        Ok(Peripheral { bus, registers })
    }
}

} // verus!
