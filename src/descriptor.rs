//! Declarative description of a peripheral: its registers in address order,
//! each with a name, an optional declared offset, a data type, and the
//! operations it supports.
use vstd::prelude::*;
use crate::access::Tier;
use crate::layout::DataType;

verus! {

/// An operation that a register may declare.
#[derive(Clone, Copy, Debug, PartialEq, Eq, Structural)]
pub enum Operation {
    Read,
    Write,
    UnsafeRead,
    UnsafeWrite,
}

/// An operation as declared, with the long name attached to it, if any.
#[derive(Clone, Debug)]
pub struct OpSpec {
    pub op: Operation,
    pub long_name: Option<String>,
}

/// One register of a peripheral.
#[derive(Clone, Debug)]
pub struct RegisterDescriptor {
    pub name: String,
    /// `None` asks for the offset to be inferred from the previous register.
    pub offset: Option<usize>,
    pub data_type: DataType,
    /// A long name shared by all of the register's operations.
    pub long_name: Option<String>,
    pub operations: Vec<OpSpec>,
}

/// A peripheral: its registers in order, and whether its bus adapter is
/// chosen per instance rather than fixed.
#[derive(Clone, Debug)]
pub struct PeripheralDescriptor {
    pub name: String,
    pub allow_bus_adapter: bool,
    pub registers: Vec<RegisterDescriptor>,
}

/// Reads: `Read` and `UnsafeRead`. Writes: `Write` and `UnsafeWrite`.
pub open spec fn is_read(op: Operation) -> bool {
    op is Read || op is UnsafeRead
}

pub open spec fn is_unsafe(op: Operation) -> bool {
    op is UnsafeRead || op is UnsafeWrite
}

/// View of an optional name.
pub open spec fn name_view(n: Option<String>) -> Option<Seq<char>> {
    match n {
        Some(s) => Some(s@),
        None => None,
    }
}

/// Why a register's operation list is refused. Each variant holds the index
/// of the offending operation.
#[derive(Clone, Copy, Debug, PartialEq, Eq, Structural)]
pub enum OperationError {
    /// An unsafe operation carries a long name.
    LongNameOnUnsafe(usize),
    /// The register and this operation both give a long name.
    LongNameOnBoth(usize),
    /// An earlier operation already covers this direction (read or write).
    MultipleSameDirection(usize),
}

/// What is wrong with operation `i`, given the register's own long name.
pub open spec fn op_problem(shared: Option<Seq<char>>, ops: Seq<OpSpec>, i: int) -> Option<
    OperationError,
> {
    let o = ops[i];
    if is_unsafe(o.op) && o.long_name is Some {
        Some(OperationError::LongNameOnUnsafe(i as usize))
    } else if shared is Some && o.long_name is Some {
        Some(OperationError::LongNameOnBoth(i as usize))
    } else if exists|j: int| 0 <= j < i && is_read(#[trigger] ops[j].op) == is_read(o.op) {
        Some(OperationError::MultipleSameDirection(i as usize))
    } else {
        None
    }
}

/// The tier of one direction of a register with operations `ops`.
pub open spec fn tier_of(ops: Seq<OpSpec>, read: bool) -> Tier {
    if exists|j: int| 0 <= j < ops.len() && is_read(#[trigger] ops[j].op) == read && !is_unsafe(
        ops[j].op,
    ) {
        Tier::Safe
    } else if exists|j: int| 0 <= j < ops.len() && is_read(#[trigger] ops[j].op) == read {
        Tier::Unsafe
    } else {
        Tier::NoAccess
    }
}

/// The long name of a safe operation: its own, else the register's.
pub open spec fn long_name_of(shared: Option<Seq<char>>, own: Option<Seq<char>>) -> Option<
    Seq<char>,
> {
    match own {
        Some(n) => Some(n),
        None => shared,
    }
}

/// The long name that direction `read` of a register ends up with: that of
/// its safe operation, if it has one.
pub open spec fn direction_long_name(
    shared: Option<Seq<char>>,
    ops: Seq<OpSpec>,
    read: bool,
) -> Option<Seq<char>> {
    if exists|j: int| 0 <= j < ops.len() && is_read(#[trigger] ops[j].op) == read && !is_unsafe(
        ops[j].op,
    ) {
        let j = choose|j: int|
            0 <= j < ops.len() && is_read(#[trigger] ops[j].op) == read && !is_unsafe(ops[j].op);
        long_name_of(shared, name_view(ops[j].long_name))
    } else {
        None
    }
}

/// Tiers and long names of both directions of a register.
#[derive(Clone, Debug)]
pub struct RegisterAccess {
    pub read: Tier,
    pub write: Tier,
    pub read_long_name: Option<String>,
    pub write_long_name: Option<String>,
}

fn clone_name(n: &Option<String>) -> (r: Option<String>)
    ensures
        name_view(r) == name_view(*n),
{
    match n {
        Some(s) => Some(s.clone()),
        None => None,
    }
}

/// Combines the register's long name with an operation's own. Giving both is
/// refused.
pub fn build_long_name(shared: &Option<String>, own: &Option<String>) -> (r: Result<
    Option<String>,
    (),
>)
    ensures
        r is Err <==> shared is Some && own is Some,
        r matches Ok(n) ==> name_view(n) == long_name_of(name_view(*shared), name_view(*own)),
{
    match (shared, own) {
        (Some(_), Some(_)) => Err(()),
        (_, Some(n)) => Ok(Some(n.clone())),
        (s, None) => Ok(clone_name(s)),
    }
}

/// Resolves a register's operation list into the tier and long name of each
/// direction. The first operation with a problem (see `op_problem`) is
/// reported.
pub fn resolve_access(shared: &Option<String>, ops: &Vec<OpSpec>) -> (r: Result<
    RegisterAccess,
    OperationError,
>)
    ensures
        r is Ok <==> forall|i: int| 0 <= i < ops@.len() ==> #[trigger] op_problem(name_view(*shared), ops@, i) is None,
        r matches Err(e) ==> exists|i: int|
            0 <= i < ops@.len() && #[trigger] op_problem(name_view(*shared), ops@, i) == Some(e) && forall|j: int|
                0 <= j < i ==> #[trigger] op_problem(name_view(*shared), ops@, j) is None,
        r matches Ok(a) ==> {
            &&& a.read == tier_of(ops@, true)
            &&& a.write == tier_of(ops@, false)
            &&& name_view(a.read_long_name) == direction_long_name(name_view(*shared), ops@, true)
            &&& name_view(a.write_long_name) == direction_long_name(
                name_view(*shared),
                ops@,
                false,
            )
        },
{
    let mut read: Option<usize> = None;
    let mut write: Option<usize> = None;
    let mut i: usize = 0;
    while i < ops.len()
        invariant
            i <= ops@.len(),
            forall|j: int| 0 <= j < i ==> #[trigger] op_problem(name_view(*shared), ops@, j) is None,
            read is Some <==> exists|j: int| 0 <= j < i && is_read(#[trigger] ops@[j].op),
            write is Some <==> exists|j: int| 0 <= j < i && !is_read(#[trigger] ops@[j].op),
            read matches Some(k) ==> k < i && is_read(ops@[k as int].op),
            write matches Some(k) ==> k < i && !is_read(ops@[k as int].op),
            forall|j: int, k: int|
                0 <= j < i && 0 <= k < i && is_read(#[trigger] ops@[j].op) == is_read(
                    #[trigger] ops@[k].op,
                ) ==> j == k,
        decreases ops@.len() - i,
    {
        let o = &ops[i];
        let unsafe_op = match o.op {
            Operation::UnsafeRead | Operation::UnsafeWrite => true,
            _ => false,
        };
        if unsafe_op && o.long_name.is_some() {
            assert(op_problem(name_view(*shared), ops@, i as int) == Some(
                OperationError::LongNameOnUnsafe(i),
            ));
            return Err(OperationError::LongNameOnUnsafe(i));
        }
        if shared.is_some() && o.long_name.is_some() {
            assert(op_problem(name_view(*shared), ops@, i as int) == Some(
                OperationError::LongNameOnBoth(i),
            ));
            return Err(OperationError::LongNameOnBoth(i));
        }
        let reads = match o.op {
            Operation::Read | Operation::UnsafeRead => true,
            _ => false,
        };
        if reads {
            if let Some(k) = read {
                assert(is_read(ops@[k as int].op) == is_read(o.op));
                assert(op_problem(name_view(*shared), ops@, i as int) == Some(
                    OperationError::MultipleSameDirection(i),
                ));
                return Err(OperationError::MultipleSameDirection(i));
            }
            read = Some(i);
        } else {
            if let Some(k) = write {
                assert(is_read(ops@[k as int].op) == is_read(o.op));
                assert(op_problem(name_view(*shared), ops@, i as int) == Some(
                    OperationError::MultipleSameDirection(i),
                ));
                return Err(OperationError::MultipleSameDirection(i));
            }
            write = Some(i);
        }
        assert(!exists|j: int| 0 <= j < i && is_read(#[trigger] ops@[j].op) == is_read(o.op));
        i += 1;
    }
    assert forall|j: int| 0 <= j < ops@.len() implies (shared is Some ==> ops@[j].long_name is None)
        && (is_unsafe(ops@[j].op) ==> ops@[j].long_name is None) by {
        assert(op_problem(name_view(*shared), ops@, j) is None);
    }
    let r_access = direction_access(shared, ops, read, true);
    let w_access = direction_access(shared, ops, write, false);
    Ok(
        RegisterAccess {
            read: r_access.0,
            write: w_access.0,
            read_long_name: r_access.1,
            write_long_name: w_access.1,
        },
    )
}

/// Tier and long name of one direction, given the index of the only
/// operation in that direction, if there is one.
fn direction_access(
    shared: &Option<String>,
    ops: &Vec<OpSpec>,
    found: Option<usize>,
    read: bool,
) -> (r: (Tier, Option<String>))
    requires
        shared is Some ==> forall|j: int| 0 <= j < ops@.len() ==> ops@[j].long_name is None,
        forall|j: int|
            0 <= j < ops@.len() && is_unsafe(ops@[j].op) ==> ops@[j].long_name is None,
        forall|j: int, k: int|
            0 <= j < ops@.len() && 0 <= k < ops@.len() && is_read(#[trigger] ops@[j].op)
                == is_read(#[trigger] ops@[k].op) ==> j == k,
        found is Some <==> exists|j: int| 0 <= j < ops@.len() && is_read(#[trigger] ops@[j].op) == read,
        found matches Some(k) ==> k < ops@.len() && is_read(ops@[k as int].op) == read,
    ensures
        r.0 == tier_of(ops@, read),
        name_view(r.1) == direction_long_name(name_view(*shared), ops@, read),
{
    match found {
        None => (Tier::NoAccess, None),
        Some(k) => {
            let o = &ops[k];
            let unsafe_op = match o.op {
                Operation::UnsafeRead | Operation::UnsafeWrite => true,
                _ => false,
            };
            if unsafe_op {
                assert(forall|j: int|
                    0 <= j < ops@.len() && is_read(#[trigger] ops@[j].op) == read ==> j == k);
                (Tier::Unsafe, None)
            } else {
                assert(forall|j: int|
                    0 <= j < ops@.len() && is_read(#[trigger] ops@[j].op) == read ==> j == k);
                let name = match build_long_name(shared, &o.long_name) {
                    Ok(n) => n,
                    Err(()) => None,
                };
                (Tier::Safe, name)
            }
        },
    }
}

impl RegisterDescriptor {
    /// Tiers and long names of this register's two directions; see
    /// `resolve_access`.
    pub fn access(&self) -> (r: Result<RegisterAccess, OperationError>)
        ensures
            r is Ok <==> forall|i: int|
                0 <= i < self.operations@.len() ==> #[trigger] op_problem(
                    name_view(self.long_name),
                    self.operations@,
                    i,
                ) is None,
            r matches Err(e) ==> exists|i: int|
                0 <= i < self.operations@.len() && #[trigger] op_problem(
                    name_view(self.long_name),
                    self.operations@,
                    i,
                ) == Some(e) && forall|j: int|
                    0 <= j < i ==> #[trigger] op_problem(
                        name_view(self.long_name),
                        self.operations@,
                        j,
                    ) is None,
            r matches Ok(a) ==> {
                &&& a.read == tier_of(self.operations@, true)
                &&& a.write == tier_of(self.operations@, false)
                &&& name_view(a.read_long_name) == direction_long_name(
                    name_view(self.long_name),
                    self.operations@,
                    true,
                )
                &&& name_view(a.write_long_name) == direction_long_name(
                    name_view(self.long_name),
                    self.operations@,
                    false,
                )
            },
    {
        resolve_access(&self.long_name, &self.operations)
    }
}

} // verus!
