use tock_registers::access::Tier;
use tock_registers::accessor::{accessor_methods, method_name, AccessorMethod, MethodKind};
use tock_registers::descriptor::RegisterAccess;
use tock_registers::layout::{DataType, ValueType};
use tock_registers::peripheral::ResolvedRegister;

fn resolved(data_type: DataType, read: Tier, write: Tier) -> ResolvedRegister {
    ResolvedRegister {
        name: "ctrl".to_string(),
        offset: 0,
        data_type,
        access: RegisterAccess { read, write, read_long_name: None, write_long_name: None },
    }
}

fn m(kind: MethodKind, is_unsafe: bool) -> AccessorMethod {
    AccessorMethod { kind, is_unsafe }
}

#[test]
fn scalar_register_methods() {
    let r = resolved(DataType::Scalar(ValueType::U32), Tier::Safe, Tier::Unsafe);
    assert_eq!(
        accessor_methods(&r),
        vec![
            m(MethodKind::Offset, false),
            m(MethodKind::Read, false),
            m(MethodKind::Write, true)
        ]
    );
}

#[test]
fn array_register_methods() {
    let r = resolved(DataType::Array(ValueType::U8, 4), Tier::Unsafe, Tier::Safe);
    assert_eq!(
        accessor_methods(&r),
        vec![
            m(MethodKind::Offset, false),
            m(MethodKind::Read, true),
            m(MethodKind::ReadUnchecked, true),
            m(MethodKind::Write, false),
            m(MethodKind::WriteUnchecked, true)
        ]
    );
}

#[test]
fn register_without_operations_has_only_its_offset() {
    let r = resolved(DataType::Array(ValueType::U8, 0), Tier::NoAccess, Tier::NoAccess);
    assert_eq!(accessor_methods(&r), vec![m(MethodKind::Offset, false)]);
}

#[test]
fn method_names_use_fixed_suffixes() {
    let name = "fifo".to_string();
    assert_eq!(method_name(&name, MethodKind::Offset), "fifo_offset");
    assert_eq!(method_name(&name, MethodKind::Read), "fifo_read");
    assert_eq!(method_name(&name, MethodKind::Write), "fifo_write");
    assert_eq!(method_name(&name, MethodKind::ReadUnchecked), "fifo_read_unchecked");
    assert_eq!(method_name(&name, MethodKind::WriteUnchecked), "fifo_write_unchecked");
}
