use tock_registers::access::Tier;
use tock_registers::descriptor::{
    build_long_name, resolve_access, Operation, OperationError, OpSpec, PeripheralDescriptor,
    RegisterDescriptor,
};
use tock_registers::layout::{DataType, DirectBus, LayoutError, ValueType, WideBus};
use tock_registers::peripheral::DescriptorError;

fn op(op: Operation) -> OpSpec {
    OpSpec { op, long_name: None }
}

fn named(op: Operation, name: &str) -> OpSpec {
    OpSpec { op, long_name: Some(name.to_string()) }
}

fn reg(
    name: &str,
    offset: Option<usize>,
    data_type: DataType,
    long_name: Option<&str>,
    operations: Vec<OpSpec>,
) -> RegisterDescriptor {
    RegisterDescriptor {
        name: name.to_string(),
        offset,
        data_type,
        long_name: long_name.map(|s| s.to_string()),
        operations,
    }
}

// minimal: u32 {}, short_array: u8[3] { Read }, long_name: u32(Ctrl) { Write },
// array_unsafe: u16[2] { UnsafeRead, UnsafeWrite }, aliased: u32 { Read(RegA), Write(RegB) }.
fn complex() -> PeripheralDescriptor {
    PeripheralDescriptor {
        name: "foo".to_string(),
        allow_bus_adapter: true,
        registers: vec![
            reg("minimal", Some(0x00), DataType::Scalar(ValueType::U32), None, vec![]),
            reg(
                "short_array",
                Some(0x04),
                DataType::Array(ValueType::U8, 3),
                None,
                vec![op(Operation::Read)],
            ),
            reg(
                "long_name",
                Some(0x07),
                DataType::Scalar(ValueType::U32),
                Some("Ctrl"),
                vec![op(Operation::Write)],
            ),
            reg(
                "array_unsafe",
                Some(0x0b),
                DataType::Array(ValueType::U16, 2),
                None,
                vec![op(Operation::UnsafeRead), op(Operation::UnsafeWrite)],
            ),
            reg(
                "aliased",
                None,
                DataType::Scalar(ValueType::U32),
                None,
                vec![named(Operation::Read, "RegA"), named(Operation::Write, "RegB")],
            ),
        ],
    }
}

#[test]
fn complex_peripheral_resolves() {
    let p = complex().resolve(DirectBus).ok().unwrap();
    let regs = p.registers();
    let offsets: Vec<usize> = regs.iter().map(|r| r.offset).collect();
    assert_eq!(offsets, vec![0x00, 0x04, 0x07, 0x0b, 0x0f]);
    assert_eq!(regs[0].access.read, Tier::NoAccess);
    assert_eq!(regs[0].access.write, Tier::NoAccess);
    assert_eq!(regs[1].access.read, Tier::Safe);
    assert_eq!(regs[1].access.read_long_name, None);
    assert_eq!(regs[2].access.write, Tier::Safe);
    assert_eq!(regs[2].access.write_long_name, Some("Ctrl".to_string()));
    assert_eq!(regs[3].access.read, Tier::Unsafe);
    assert_eq!(regs[3].access.write, Tier::Unsafe);
    assert_eq!(regs[4].access.read_long_name, Some("RegA".to_string()));
    assert_eq!(regs[4].access.write_long_name, Some("RegB".to_string()));
    assert_eq!(p.find(&"aliased".to_string()), Some(4));
    assert_eq!(p.find(&"missing".to_string()), None);
}

#[test]
fn wider_bus_moves_the_expected_offsets() {
    match complex().resolve(WideBus { width: 4 }) {
        Err(DescriptorError::Layout(LayoutError::UnexpectedOffset(bad))) => {
            assert_eq!(bad, vec![2])
        }
        _ => panic!("expected an offset error"),
    }
}

#[test]
fn minimal_peripheral_resolves() {
    let d = PeripheralDescriptor {
        name: "foo".to_string(),
        allow_bus_adapter: false,
        registers: vec![],
    };
    assert_eq!(d.resolve(DirectBus).ok().unwrap().registers().len(), 0);
}

#[test]
fn duplicate_names_are_refused() {
    let d = PeripheralDescriptor {
        name: "foo".to_string(),
        allow_bus_adapter: false,
        registers: vec![
            reg("a", None, DataType::Scalar(ValueType::U8), None, vec![]),
            reg("b", None, DataType::Scalar(ValueType::U8), None, vec![]),
            reg("b", None, DataType::Scalar(ValueType::U8), None, vec![]),
            reg("a", None, DataType::Scalar(ValueType::U8), None, vec![]),
        ],
    };
    assert_eq!(d.resolve(DirectBus).err(), Some(DescriptorError::DuplicateName(1, 2)));
}

#[test]
fn operation_errors_name_register_and_operation() {
    let d = PeripheralDescriptor {
        name: "foo".to_string(),
        allow_bus_adapter: false,
        registers: vec![
            reg("ok", None, DataType::Scalar(ValueType::U8), None, vec![op(Operation::Read)]),
            reg(
                "ctrl",
                Some(0x1),
                DataType::Scalar(ValueType::U8),
                None,
                vec![op(Operation::Read), op(Operation::Write), op(Operation::UnsafeRead)],
            ),
        ],
    };
    assert_eq!(
        d.resolve(DirectBus).err(),
        Some(DescriptorError::Operation(1, OperationError::MultipleSameDirection(2)))
    );
}

#[test]
fn layout_errors_come_after_the_other_checks() {
    let d = PeripheralDescriptor {
        name: "foo".to_string(),
        allow_bus_adapter: false,
        registers: vec![
            reg("a", Some(0x1), DataType::Scalar(ValueType::U32), None, vec![]),
            reg("c", Some(0x7), DataType::Scalar(ValueType::U8), None, vec![]),
        ],
    };
    assert_eq!(
        d.resolve(DirectBus).err(),
        Some(DescriptorError::Layout(LayoutError::UnexpectedOffset(vec![0, 1])))
    );
}

#[test]
fn long_name_combination() {
    let ctrl = Some("Ctrl".to_string());
    let own = Some("Own".to_string());
    assert_eq!(build_long_name(&None, &None), Ok(None));
    assert_eq!(build_long_name(&None, &own), Ok(own.clone()));
    assert_eq!(build_long_name(&ctrl, &None), Ok(ctrl.clone()));
    assert_eq!(build_long_name(&ctrl, &own), Err(()));
}

#[test]
fn shared_long_name_applies_to_safe_operations() {
    let a = resolve_access(
        &Some("Ctrl".to_string()),
        &vec![op(Operation::Read), op(Operation::UnsafeWrite)],
    )
    .ok()
    .unwrap();
    assert_eq!(a.read, Tier::Safe);
    assert_eq!(a.read_long_name, Some("Ctrl".to_string()));
    assert_eq!(a.write, Tier::Unsafe);
    assert_eq!(a.write_long_name, None);
}

#[test]
fn long_name_on_both_is_refused() {
    let r = resolve_access(&Some("Ctrl".to_string()), &vec![named(Operation::Write, "W")]);
    assert_eq!(r.err(), Some(OperationError::LongNameOnBoth(0)));
}

#[test]
fn long_name_on_unsafe_operation_is_refused() {
    let r = resolve_access(&None, &vec![op(Operation::Write), named(Operation::UnsafeRead, "R")]);
    assert_eq!(r.err(), Some(OperationError::LongNameOnUnsafe(1)));
}

#[test]
fn safe_and_unsafe_in_one_direction_are_refused() {
    let r = resolve_access(&None, &vec![op(Operation::UnsafeWrite), op(Operation::Write)]);
    assert_eq!(r.err(), Some(OperationError::MultipleSameDirection(1)));
    let r = resolve_access(&None, &vec![op(Operation::Read), op(Operation::Read)]);
    assert_eq!(r.err(), Some(OperationError::MultipleSameDirection(1)));
}

#[test]
fn register_access_method() {
    let r = reg(
        "ctrl",
        None,
        DataType::Scalar(ValueType::U8),
        None,
        vec![op(Operation::UnsafeRead), op(Operation::Write)],
    );
    let a = r.access().ok().unwrap();
    assert_eq!((a.read, a.write), (Tier::Unsafe, Tier::Safe));
}

#[test]
fn fixed_bus_peripheral_needs_native_widths() {
    let d = PeripheralDescriptor {
        name: "foo".to_string(),
        allow_bus_adapter: false,
        registers: vec![reg("a", None, DataType::Scalar(ValueType::U8), None, vec![])],
    };
    assert_eq!(
        d.resolve(WideBus { width: 4 }).err(),
        Some(DescriptorError::BusAdapterNotAllowed)
    );
    assert_eq!(d.resolve(WideBus { width: 1 }).ok().unwrap().registers()[0].offset, 0);
    assert_eq!(d.resolve(DirectBus).ok().unwrap().registers().len(), 1);
}
