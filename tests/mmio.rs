use tock_registers::descriptor::{PeripheralDescriptor, RegisterDescriptor};
use tock_registers::layout::{DataType, DirectBus, ValueType, WideBus};
use tock_registers::mmio::{ConstPointer, DynPointer, Mmio, MmioPointer};

fn reg(name: &str, data_type: DataType) -> RegisterDescriptor {
    RegisterDescriptor {
        name: name.to_string(),
        offset: None,
        data_type,
        long_name: None,
        operations: vec![],
    }
}

fn descriptor() -> PeripheralDescriptor {
    PeripheralDescriptor {
        name: "uart".to_string(),
        allow_bus_adapter: true,
        registers: vec![
            reg("ctrl", DataType::Scalar(ValueType::U32)),
            reg("fifo", DataType::Array(ValueType::U16, 3)),
            reg("status", DataType::Scalar(ValueType::U8)),
        ],
    }
}

#[test]
fn pointers_report_their_address() {
    assert_eq!(DynPointer::new(0x4000_0000).pointer(), 0x4000_0000);
    assert_eq!(ConstPointer::<0x1000>.pointer(), 0x1000);
}

#[test]
fn element_addresses_on_direct_bus() {
    let p = descriptor().resolve(DirectBus).ok().unwrap();
    let m = Mmio::new(DynPointer::new(0x1000), p).unwrap();
    assert_eq!(m.address(0, 0), Some(0x1000));
    assert_eq!(m.address(0, 1), None);
    assert_eq!(m.address(1, 0), Some(0x1004));
    assert_eq!(m.address(1, 2), Some(0x1008));
    assert_eq!(m.address(1, 3), None);
    assert_eq!(m.address(2, 0), Some(0x100a));
    assert_eq!(m.address(3, 0), None);
    assert_eq!(m.address_unchecked(1, 1), 0x1006);
}

#[test]
fn element_addresses_on_wide_bus() {
    let p = descriptor().resolve(WideBus { width: 4 }).ok().unwrap();
    let m = Mmio::new(ConstPointer::<0x2000>, p).unwrap();
    assert_eq!(m.address(1, 2), Some(0x200c));
    assert_eq!(m.address(2, 0), Some(0x2010));
    assert_eq!(m.pointer().pointer(), 0x2000);
}

#[test]
fn peripheral_past_the_address_space_is_refused() {
    let p = descriptor().resolve(DirectBus).ok().unwrap();
    assert!(Mmio::new(DynPointer::new(usize::MAX - 4), p).is_none());
    let p = descriptor().resolve(DirectBus).ok().unwrap();
    assert!(Mmio::new(DynPointer::new(usize::MAX - 11), p).is_some());
}
