use std::cell::Cell;
use tock_registers::access::{NoAccess, Safe, Unsafe};
use tock_registers::fake::FakeRegister;
use tock_registers::layout::{DataType, ValueType};
use tock_registers::register::{
    ArrayRead, ArrayUnsafeWrite, ArrayWrite, OutOfBounds, Read, Register, UnsafeRead, Write,
};

#[test]
fn fake_scalar_write_then_read_through_caller_state() {
    let cell = Cell::new(0u64);
    let mut reg: FakeRegister<_, _, _, Safe, Safe> = FakeRegister::new(
        &cell,
        DataType::Scalar(ValueType::U32),
        |c: &Cell<u64>, _| Some(c.get()),
        |c: &Cell<u64>, _, v| {
            c.set(v);
            Ok(())
        },
    );
    Write::write(&mut reg, 0x1234_5678);
    assert_eq!(cell.get(), 0x1234_5678);
    assert_eq!(Read::read(&reg), 0x1234_5678);
    assert_eq!(reg.len(), 1);
}

#[test]
fn fake_array_checks_bounds_before_calling() {
    let cells = [Cell::new(1u64), Cell::new(2), Cell::new(3)];
    let mut reg: FakeRegister<_, _, _, Safe, Safe> = FakeRegister::new(
        &cells,
        DataType::Array(ValueType::U16, 3),
        |c: &[Cell<u64>; 3], i: usize| Some(c[i].get()),
        |c: &[Cell<u64>; 3], i: usize, v| {
            c[i].set(v);
            Ok(())
        },
    );
    assert_eq!(reg.read_at(2), Some(3));
    assert_eq!(reg.read_at(3), None);
    assert_eq!(reg.write_at(0, 10), Ok(()));
    assert_eq!(reg.write_at(3, 10), Err(OutOfBounds));
    assert_eq!(cells[0].get(), 10);
    ArrayWrite::write_unchecked(&mut reg, 1, 20);
    assert_eq!(ArrayRead::read_unchecked(&reg, 1), 20);
    assert_eq!(reg.get(1).unwrap().read(), 20);
    assert!(reg.get(3).is_none());
    let values: Vec<u64> = {
        let mut iter = reg.into_iter();
        let mut out = Vec::new();
        while let Some(e) = iter.next() {
            out.push(e.read());
        }
        out
    };
    assert_eq!(values, vec![10, 20, 3]);
}

#[test]
fn fake_unsafe_operations() {
    let cell = Cell::new(7u64);
    let mut reg: FakeRegister<_, _, _, Unsafe, Unsafe> = FakeRegister::new(
        &cell,
        DataType::Array(ValueType::U64, 1),
        |c: &Cell<u64>, _| Some(c.get()),
        |c: &Cell<u64>, _, v| {
            c.set(v);
            Ok(())
        },
    );
    assert_eq!(reg.unsafe_read_at(0), Some(7));
    assert_eq!(reg.unsafe_read_at(1), None);
    assert_eq!(reg.unsafe_write_at(1, 0), Err(OutOfBounds));
    ArrayUnsafeWrite::write_unchecked(&mut reg, 0, 70);
    assert_eq!(reg.get(0).unwrap().unsafe_read(), 70);
}

#[test]
fn fake_unsafe_scalar_read() {
    let reg: FakeRegister<_, _, _, Unsafe, NoAccess> = FakeRegister::new(
        (),
        DataType::Scalar(ValueType::U8),
        |_: (), _| Some(0x42),
        |_: (), _, _| Err(OutOfBounds),
    );
    assert_eq!(UnsafeRead::read(&reg), 0x42);
}
