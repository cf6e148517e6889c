//! The accessor surface of a register: which methods its accessor offers,
//! and which of them carry obligations for the caller.
use vstd::prelude::*;
use crate::access::Tier;
use crate::layout::DataType;
use crate::peripheral::ResolvedRegister;

verus! {

/// What an accessor method does. Each kind has a fixed name suffix.
#[derive(Clone, Copy, Debug, PartialEq, Eq, Structural)]
pub enum MethodKind {
    /// `_offset`: the register's byte offset.
    Offset,
    /// `_read`: a read, bounds-checked for arrays.
    Read,
    /// `_write`: a write, bounds-checked for arrays.
    Write,
    /// `_read_unchecked`: an array read whose index the caller has checked.
    ReadUnchecked,
    /// `_write_unchecked`: an array write whose index the caller has checked.
    WriteUnchecked,
}

/// One method of a register's accessor.
#[derive(Clone, Copy, Debug, PartialEq, Eq, Structural)]
pub struct AccessorMethod {
    pub kind: MethodKind,
    /// Calling it puts obligations on the caller (hardware-specific
    /// requirements, or an index bound it has to establish).
    pub is_unsafe: bool,
}

/// Methods for one direction of a register: none without access; else the
/// plain method, safe only in the safe tier, and for arrays an unchecked
/// variant, which is always unsafe.
pub open spec fn direction_methods(
    dt: DataType,
    tier: Tier,
    plain: MethodKind,
    unchecked: MethodKind,
) -> Seq<AccessorMethod> {
    match tier {
        Tier::NoAccess => seq![],
        _ => {
            let first = AccessorMethod { kind: plain, is_unsafe: tier == Tier::Unsafe };
            if dt.is_array() {
                seq![first, AccessorMethod { kind: unchecked, is_unsafe: true }]
            } else {
                seq![first]
            }
        },
    }
}

/// The accessor methods of a register with data type `dt` and tiers `read`
/// and `write`, in order: offset, reads, writes.
pub open spec fn methods_of(dt: DataType, read: Tier, write: Tier) -> Seq<AccessorMethod> {
    seq![AccessorMethod { kind: MethodKind::Offset, is_unsafe: false }] + direction_methods(
        dt,
        read,
        MethodKind::Read,
        MethodKind::ReadUnchecked,
    ) + direction_methods(dt, write, MethodKind::Write, MethodKind::WriteUnchecked)
}

fn push_direction(
    out: &mut Vec<AccessorMethod>,
    dt: DataType,
    tier: Tier,
    plain: MethodKind,
    unchecked: MethodKind,
)
    ensures
        final(out)@ == old(out)@ + direction_methods(dt, tier, plain, unchecked),
{
    match tier {
        Tier::NoAccess => {},
        _ => {
            let is_unsafe = match tier {
                Tier::Unsafe => true,
                _ => false,
            };
            out.push(AccessorMethod { kind: plain, is_unsafe });
            match dt {
                DataType::Array(_, _) => out.push(
                    AccessorMethod { kind: unchecked, is_unsafe: true },
                ),
                DataType::Scalar(_) => {},
            }
        },
    }
    assert(final(out)@ =~= old(out)@ + direction_methods(dt, tier, plain, unchecked));
}

/// The methods that the accessor of `reg` offers.
pub fn accessor_methods(reg: &ResolvedRegister) -> (r: Vec<AccessorMethod>)
    ensures
        r@ == methods_of(reg.data_type, reg.access.read, reg.access.write),
{
    let mut out: Vec<AccessorMethod> = Vec::new();
    out.push(AccessorMethod { kind: MethodKind::Offset, is_unsafe: false });
    push_direction(&mut out, reg.data_type, reg.access.read, MethodKind::Read, MethodKind::ReadUnchecked);
    push_direction(
        &mut out,
        reg.data_type,
        reg.access.write,
        MethodKind::Write,
        MethodKind::WriteUnchecked,
    );
    out
}

/// A safe read or write method is offered only for a direction in the safe
/// tier, and no method at all for a direction without access; an array
/// direction with access gets both a checked and an unchecked method, and
/// the unchecked one is never safe.
pub proof fn lemma_methods_follow_tiers(dt: DataType, read: Tier, write: Tier)
    ensures
        forall|i: int|
            0 <= i < methods_of(dt, read, write).len() ==> {
                let m = #[trigger] methods_of(dt, read, write)[i];
                &&& (m.kind == MethodKind::Read || m.kind == MethodKind::ReadUnchecked) ==> read
                    != Tier::NoAccess
                &&& (m.kind == MethodKind::Write || m.kind == MethodKind::WriteUnchecked) ==> write
                    != Tier::NoAccess
                &&& (m.kind == MethodKind::Read && !m.is_unsafe) ==> read == Tier::Safe
                &&& (m.kind == MethodKind::Write && !m.is_unsafe) ==> write == Tier::Safe
                &&& (m.kind == MethodKind::ReadUnchecked || m.kind == MethodKind::WriteUnchecked)
                    ==> m.is_unsafe && dt.is_array()
            },
        dt.is_array() && read != Tier::NoAccess ==> methods_of(dt, read, write).contains(
            AccessorMethod { kind: MethodKind::Read, is_unsafe: read == Tier::Unsafe },
        ) && methods_of(dt, read, write).contains(
            AccessorMethod { kind: MethodKind::ReadUnchecked, is_unsafe: true },
        ),
        dt.is_array() && write != Tier::NoAccess ==> methods_of(dt, read, write).contains(
            AccessorMethod { kind: MethodKind::Write, is_unsafe: write == Tier::Unsafe },
        ) && methods_of(dt, read, write).contains(
            AccessorMethod { kind: MethodKind::WriteUnchecked, is_unsafe: true },
        ),
{
    let ms = methods_of(dt, read, write);
    let rd = direction_methods(dt, read, MethodKind::Read, MethodKind::ReadUnchecked);
    let wr = direction_methods(dt, write, MethodKind::Write, MethodKind::WriteUnchecked);
    assert(ms =~= seq![AccessorMethod { kind: MethodKind::Offset, is_unsafe: false }] + rd + wr);
    if dt.is_array() && read != Tier::NoAccess {
        assert(ms[1] == rd[0]);
        assert(ms[2] == rd[1]);
    }
    if dt.is_array() && write != Tier::NoAccess {
        assert(ms[1 + rd.len() as int] == wr[0]);
        assert(ms[2 + rd.len() as int] == wr[1]);
    }
}

/// The name suffix of each method kind.
pub open spec fn suffix_of(kind: MethodKind) -> Seq<char> {
    match kind {
        MethodKind::Offset => "_offset"@,
        MethodKind::Read => "_read"@,
        MethodKind::Write => "_write"@,
        MethodKind::ReadUnchecked => "_read_unchecked"@,
        MethodKind::WriteUnchecked => "_write_unchecked"@,
    }
}

pub fn suffix(kind: MethodKind) -> (r: &'static str)
    ensures
        r@ == suffix_of(kind),
{
    match kind {
        MethodKind::Offset => "_offset",
        MethodKind::Read => "_read",
        MethodKind::Write => "_write",
        MethodKind::ReadUnchecked => "_read_unchecked",
        MethodKind::WriteUnchecked => "_write_unchecked",
    }
}

/// Relies on `alloc::format!`: formatting two strings with `"{}{}"` writes
/// the first followed by the second.
#[verifier::external_body]
fn concat(a: &str, b: &str) -> (r: String)
    ensures
        r@ == a@ + b@,
{
    format!("{}{}", a, b)
}

/// The name of the accessor method of kind `kind` for register `register`.
pub fn method_name(register: &String, kind: MethodKind) -> (r: String)
    ensures
        r@ == register@ + suffix_of(kind),
{
    concat(register.as_str(), suffix(kind))
}

} // verus!
