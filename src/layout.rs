//! Register layout: data types, bus adapters, and the resolution of each
//! register's byte offset from an ordered list of registers.
use vstd::prelude::*;
use crate::descriptor::RegisterDescriptor;

verus! {

/// The unsigned integer type that a register (or each array element) holds.
#[derive(Clone, Copy, Debug, PartialEq, Eq, Structural)]
pub enum ValueType {
    U8,
    U16,
    U32,
    U64,
}

impl ValueType {
    /// Number of bytes in the type itself.
    pub open spec fn spec_bytes(self) -> nat {
        match self {
            ValueType::U8 => 1,
            ValueType::U16 => 2,
            ValueType::U32 => 4,
            ValueType::U64 => 8,
        }
    }

    pub fn bytes(self) -> (r: usize)
        ensures
            r == self.spec_bytes(),
    {
        match self {
            ValueType::U8 => 1,
            ValueType::U16 => 2,
            ValueType::U32 => 4,
            ValueType::U64 => 8,
        }
    }

    /// Largest value the type holds.
    pub open spec fn spec_max(self) -> u64 {
        match self {
            ValueType::U8 => 0xff,
            ValueType::U16 => 0xffff,
            ValueType::U32 => 0xffff_ffff,
            ValueType::U64 => 0xffff_ffff_ffff_ffff,
        }
    }
}

/// Shape of a register: one value, or an array of `len` values.
#[derive(Clone, Copy, Debug, PartialEq, Eq, Structural)]
pub enum DataType {
    Scalar(ValueType),
    Array(ValueType, usize),
}

impl DataType {
    pub open spec fn value_type(self) -> ValueType {
        match self {
            DataType::Scalar(v) => v,
            DataType::Array(v, _) => v,
        }
    }

    pub fn value(self) -> (r: ValueType)
        ensures
            r == self.value_type(),
    {
        match self {
            DataType::Scalar(v) => v,
            DataType::Array(v, _) => v,
        }
    }

    pub open spec fn is_array(self) -> bool {
        self is Array
    }

    /// Number of elements: 1 for a scalar register.
    pub open spec fn spec_len(self) -> nat {
        match self {
            DataType::Scalar(_) => 1,
            DataType::Array(_, n) => n as nat,
        }
    }

    pub fn len(self) -> (r: usize)
        ensures
            r == self.spec_len(),
    {
        match self {
            DataType::Scalar(_) => 1,
            DataType::Array(_, n) => n,
        }
    }
}

/// Defines how many bytes one transfer of each value type occupies on a bus.
pub trait BusAdapter {
    spec fn spec_size(&self, value: ValueType) -> nat;

    fn size(&self, value: ValueType) -> (r: usize)
        ensures
            r == self.spec_size(value),
    ;
}

/// A bus on which each value type is accessed at its own width.
#[derive(Clone, Copy, Debug, PartialEq, Eq, Structural)]
pub struct DirectBus;

impl BusAdapter for DirectBus {
    open spec fn spec_size(&self, value: ValueType) -> nat {
        value.spec_bytes()
    }

    fn size(&self, value: ValueType) -> (r: usize) {
        value.bytes()
    }
}

/// A bus whose transfers are at least `width` bytes wide: narrower values
/// are padded to the bus width.
#[derive(Clone, Copy, Debug, PartialEq, Eq, Structural)]
pub struct WideBus {
    pub width: usize,
}

impl BusAdapter for WideBus {
    open spec fn spec_size(&self, value: ValueType) -> nat {
        if value.spec_bytes() < self.width {
            self.width as nat
        } else {
            value.spec_bytes()
        }
    }

    fn size(&self, value: ValueType) -> (r: usize) {
        let native = value.bytes();
        if native < self.width {
            self.width
        } else {
            native
        }
    }
}

/// Bytes a register of type `dt` occupies on `bus`.
pub open spec fn span<B: BusAdapter>(bus: &B, dt: DataType) -> int {
    match dt {
        DataType::Scalar(v) => bus.spec_size(v) as int,
        DataType::Array(v, n) => n * bus.spec_size(v),
    }
}

/// Where a register is placed: its declared offset, or else the expected one.
pub open spec fn placed(declared: Option<usize>, expected: int) -> int {
    match declared {
        Some(o) => o as int,
        None => expected,
    }
}

/// The offset at which register `i` is expected: 0 for the first register,
/// else just past the previous register as it was placed.
pub open spec fn expected_offset<B: BusAdapter>(
    bus: &B,
    regs: Seq<RegisterDescriptor>,
    i: nat,
) -> int
    decreases i,
{
    if i == 0 {
        0
    } else {
        let p = (i - 1) as nat;
        placed(regs[p as int].offset, expected_offset(bus, regs, p)) + span(bus, regs[p as int].data_type)
    }
}

/// Offset at which register `i` is placed.
pub open spec fn placed_offset<B: BusAdapter>(
    bus: &B,
    regs: Seq<RegisterDescriptor>,
    i: nat,
) -> int {
    placed(regs[i as int].offset, expected_offset(bus, regs, i))
}

/// Register `i` declares an offset other than the one expected.
pub open spec fn is_mismatch<B: BusAdapter>(
    bus: &B,
    regs: Seq<RegisterDescriptor>,
    i: nat,
) -> bool {
    match regs[i as int].offset {
        Some(o) => o != expected_offset(bus, regs, i),
        None => false,
    }
}

/// Register `i` ends at an address that a `usize` can hold.
pub open spec fn fits_at<B: BusAdapter>(
    bus: &B,
    regs: Seq<RegisterDescriptor>,
    i: nat,
) -> bool {
    placed_offset(bus, regs, i) + span(bus, regs[i as int].data_type) <= usize::MAX
}

/// Indices, in increasing order, of the first `k` registers that mismatch.
pub open spec fn mismatches<B: BusAdapter>(
    bus: &B,
    regs: Seq<RegisterDescriptor>,
    k: nat,
) -> Seq<usize>
    decreases k,
{
    if k == 0 {
        seq![]
    } else {
        let p = (k - 1) as nat;
        if is_mismatch(bus, regs, p) {
            mismatches(bus, regs, p).push(p as usize)
        } else {
            mismatches(bus, regs, p)
        }
    }
}

/// The layout is consistent: every register fits and every declared offset is
/// the expected one.
pub open spec fn layout_valid<B: BusAdapter>(
    bus: &B,
    regs: Seq<RegisterDescriptor>,
) -> bool {
    &&& forall|i: nat| i < regs.len() ==> #[trigger] fits_at(bus, regs, i)
    &&& forall|i: nat| i < regs.len() ==> !#[trigger] is_mismatch(bus, regs, i)
}

/// Why a layout cannot be resolved.
#[derive(Clone, Debug, PartialEq, Eq)]
pub enum LayoutError {
    /// The register at this index would end past the largest address.
    TooLarge(usize),
    /// These registers (by index, in order) declare an offset other than the
    /// one inferred from the registers before them.
    UnexpectedOffset(Vec<usize>),
}

/// The mismatch list is empty exactly when no register mismatches, and it
/// holds each mismatching index.
proof fn lemma_mismatches<B: BusAdapter>(bus: &B, regs: Seq<RegisterDescriptor>, k: nat)
    requires
        k <= regs.len(),
    ensures
        mismatches(bus, regs, k).len() == 0 <==> forall|i: nat|
            i < k ==> !#[trigger] is_mismatch(bus, regs, i),
        forall|i: nat|
            i < k && #[trigger] is_mismatch(bus, regs, i) ==> mismatches(bus, regs, k).contains(
                i as usize,
            ),
    decreases k,
{
    if k > 0 {
        let p = (k - 1) as nat;
        lemma_mismatches(bus, regs, p);
        if is_mismatch(bus, regs, p) {
            let m = mismatches(bus, regs, k);
            assert(m[m.len() - 1] == p as usize);
        }
        assert forall|i: nat| i < k && #[trigger] is_mismatch(bus, regs, i) implies mismatches(
            bus,
            regs,
            k,
        ).contains(i as usize) by {
            if i < p {
                let j = choose|j: int|
                    0 <= j < mismatches(bus, regs, p).len() && mismatches(bus, regs, p)[j] == i as usize;
                assert(mismatches(bus, regs, k)[j] == i as usize);
            } else {
                let m = mismatches(bus, regs, k);
                assert(m[m.len() - 1] == p as usize);
            }
        }
    }
}

/// Computes the offset of every register, checking each declared offset
/// against the one inferred from the registers before it.
///
/// A layout in which some register would end past the largest address is
/// refused with `TooLarge`, naming the first such register. Otherwise a
/// layout in which some register declares an unexpected offset is refused
/// with `UnexpectedOffset`, naming every such register.
pub fn resolve_offsets<B: BusAdapter>(bus: &B, regs: &Vec<RegisterDescriptor>) -> (r: Result<
    Vec<usize>,
    LayoutError,
>)
    ensures
        r is Ok <==> layout_valid(bus, regs@),
        r matches Ok(offs) ==> offs@.len() == regs@.len() && forall|i: int|
            0 <= i < regs@.len() ==> offs@[i] == #[trigger] placed_offset(bus, regs@, i as nat),
        r matches Err(LayoutError::TooLarge(i)) ==> i < regs@.len() && !fits_at(
            bus,
            regs@,
            i as nat,
        ) && forall|j: nat| j < i ==> #[trigger] fits_at(bus, regs@, j),
        r matches Err(LayoutError::UnexpectedOffset(bad)) ==> (forall|j: nat|
            j < regs@.len() ==> #[trigger] fits_at(bus, regs@, j)) && bad@ == mismatches(
            bus,
            regs@,
            regs@.len(),
        ) && bad@.len() > 0,
{
    let mut out: Vec<usize> = Vec::new();
    let mut bad: Vec<usize> = Vec::new();
    let mut expected: usize = 0;
    let mut i: usize = 0;
    while i < regs.len()
        invariant
            i <= regs@.len(),
            expected == expected_offset(bus, regs@, i as nat),
            out@.len() == i,
            forall|j: int| 0 <= j < i ==> out@[j] == #[trigger] placed_offset(bus, regs@, j as nat),
            forall|j: nat| j < i ==> #[trigger] fits_at(bus, regs@, j),
            bad@ == mismatches(bus, regs@, i as nat),
        decreases regs@.len() - i,
    {
        let reg = &regs[i];
        let size = bus.size(reg.data_type.value());
        let span_bytes: usize = match reg.data_type {
            DataType::Scalar(_) => size,
            DataType::Array(_, n) => match n.checked_mul(size) {
                Some(s) => s,
                None => {
                    assert(placed_offset(bus, regs@, i as nat) >= 0);
                    assert(!fits_at(bus, regs@, i as nat));
                    return Err(LayoutError::TooLarge(i));
                },
            },
        };
        assert(span_bytes == span(bus, reg.data_type));
        let at: usize = match reg.offset {
            Some(o) => {
                if o != expected {
                    bad.push(i);
                }
                o
            },
            None => expected,
        };
        let end = match at.checked_add(span_bytes) {
            Some(e) => e,
            None => {
                assert(!fits_at(bus, regs@, i as nat));
                return Err(LayoutError::TooLarge(i));
            },
        };
        out.push(at);
        expected = end;
        i += 1;
    }
    proof {
        lemma_mismatches(bus, regs@, regs@.len());
    }
    if bad.len() > 0 {
        Err(LayoutError::UnexpectedOffset(bad))
    } else {
        Ok(out)
    }
}

proof fn lemma_span_nonnegative<B: BusAdapter>(bus: &B, dt: DataType)
    ensures
        span(bus, dt) >= 0,
{
    match dt {
        DataType::Scalar(_) => {},
        DataType::Array(v, n) => {
            let size = bus.spec_size(v);
            assert(n * size >= 0) by (nonlinear_arith)
                requires
                    n >= 0,
                    size >= 0,
            ;
        },
    }
}

proof fn lemma_packed_from<B: BusAdapter>(bus: &B, regs: Seq<RegisterDescriptor>, i: nat, j: nat)
    requires
        layout_valid(bus, regs),
        i < j < regs.len(),
    ensures
        placed_offset(bus, regs, i) + span(bus, regs[i as int].data_type) <= placed_offset(
            bus,
            regs,
            j,
        ),
    decreases j - i,
{
    let p = (j - 1) as nat;
    assert(!is_mismatch(bus, regs, j));
    assert(!is_mismatch(bus, regs, p));
    assert(placed_offset(bus, regs, j) == expected_offset(bus, regs, j));
    if p > i {
        lemma_packed_from(bus, regs, i, p);
        lemma_span_nonnegative(bus, regs[p as int].data_type);
    }
}

/// In a valid layout every register begins exactly where the one before it
/// ends, so offsets never decrease and no register overlaps a later one.
pub proof fn lemma_offsets_packed<B: BusAdapter>(bus: &B, regs: Seq<RegisterDescriptor>)
    requires
        layout_valid(bus, regs),
    ensures
        forall|i: nat|
            i + 1 < regs.len() ==> #[trigger] placed_offset(bus, regs, i) + span(
                bus,
                regs[i as int].data_type,
            ) == placed_offset(bus, regs, i + 1),
        forall|i: nat, j: nat|
            i < j < regs.len() ==> #[trigger] placed_offset(bus, regs, i) + span(
                bus,
                regs[i as int].data_type,
            ) <= #[trigger] placed_offset(bus, regs, j),
        forall|i: nat, j: nat|
            i <= j < regs.len() ==> #[trigger] placed_offset(bus, regs, i) <= #[trigger] placed_offset(
                bus,
                regs,
                j,
            ),
{
    assert forall|i: nat| i + 1 < regs.len() implies #[trigger] placed_offset(bus, regs, i) + span(
        bus,
        regs[i as int].data_type,
    ) == placed_offset(bus, regs, i + 1) by {
        assert(!is_mismatch(bus, regs, i + 1));
    }
    assert forall|i: nat, j: nat| i < j < regs.len() implies #[trigger] placed_offset(
        bus,
        regs,
        i,
    ) + span(bus, regs[i as int].data_type) <= #[trigger] placed_offset(bus, regs, j) by {
        lemma_packed_from(bus, regs, i, j);
    }
    assert forall|i: nat, j: nat| i <= j < regs.len() implies #[trigger] placed_offset(
        bus,
        regs,
        i,
    ) <= #[trigger] placed_offset(bus, regs, j) by {
        if i < j {
            lemma_packed_from(bus, regs, i, j);
            lemma_span_nonnegative(bus, regs[i as int].data_type);
        }
    }
}

/// A layout in which every register fits and every declared offset equals
/// the offset inferred for it is valid, so it resolves.
pub proof fn lemma_expected_offsets_accepted<B: BusAdapter>(
    bus: &B,
    regs: Seq<RegisterDescriptor>,
)
    requires
        forall|i: nat| i < regs.len() ==> #[trigger] fits_at(bus, regs, i),
        forall|i: nat|
            i < regs.len() && regs[i as int].offset is Some ==> regs[i as int].offset->0
                == #[trigger] expected_offset(bus, regs, i),
    ensures
        layout_valid(bus, regs),
{
    assert forall|i: nat| i < regs.len() implies !#[trigger] is_mismatch(bus, regs, i) by {
        assert(expected_offset(bus, regs, i) == expected_offset(bus, regs, i));
    }
}

/// A register whose declared offset differs from the offset inferred for it
/// makes the layout invalid; when every register fits, the refusal's list of
/// unexpected offsets names it.
pub proof fn lemma_unexpected_offset_refused<B: BusAdapter>(
    bus: &B,
    regs: Seq<RegisterDescriptor>,
    i: nat,
)
    requires
        i < regs.len(),
        regs[i as int].offset is Some,
        regs[i as int].offset->0 != expected_offset(bus, regs, i),
    ensures
        !layout_valid(bus, regs),
        (forall|j: nat| j < regs.len() ==> #[trigger] fits_at(bus, regs, j)) ==> mismatches(
            bus,
            regs,
            regs.len(),
        ).contains(i as usize),
{
    assert(is_mismatch(bus, regs, i));
    lemma_mismatches(bus, regs, regs.len());
}

} // verus!
