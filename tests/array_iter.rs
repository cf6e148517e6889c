use tock_registers::access::{NoAccess, Safe};
use tock_registers::array::{ArrayElement, ArrayIter};
use tock_registers::cell::CellRegister;
use tock_registers::fake::FakeRegister;
use tock_registers::layout::{DataType, ValueType};
use tock_registers::register::OutOfBounds;

// A peripheral with `a: u32[2] { Read }` and `empty: u8[0] {}`, whose fake
// backend reads 3 and 4 from `a`.
#[derive(Clone, Copy)]
struct FakeFoo;

type ReadFn = fn(FakeFoo, usize) -> Option<u64>;
type WriteFn = fn(FakeFoo, usize, u64) -> Result<(), OutOfBounds>;

fn a_read(_: FakeFoo, index: usize) -> Option<u64> {
    [3, 4].get(index).copied()
}

fn no_read(_: FakeFoo, _: usize) -> Option<u64> {
    None
}

fn no_write(_: FakeFoo, _: usize, _: u64) -> Result<(), OutOfBounds> {
    Err(OutOfBounds)
}

fn a() -> FakeRegister<FakeFoo, ReadFn, WriteFn, Safe, NoAccess> {
    FakeRegister::new(FakeFoo, DataType::Array(ValueType::U32, 2), a_read, no_write)
}

fn empty() -> FakeRegister<FakeFoo, ReadFn, WriteFn, NoAccess, NoAccess> {
    FakeRegister::new(FakeFoo, DataType::Array(ValueType::U8, 0), no_read, no_write)
}

#[test]
fn count() {
    let a = a();
    assert_eq!(a.into_iter().count(), 2);
    let mut iter = a.into_iter();
    iter.next();
    assert_eq!(iter.count(), 1);
    let mut iter = a.into_iter();
    iter.next();
    iter.next();
    assert_eq!(iter.count(), 0);
}

#[test]
fn last() {
    let a = a();
    assert_eq!(a.into_iter().last().unwrap().read(), 4);
    assert!(empty().into_iter().last().is_none());
}

#[test]
fn len() {
    let a = a();
    let mut iter = a.into_iter();
    assert_eq!(iter.len(), 2);
    iter.next();
    assert_eq!(iter.len(), 1);
    iter.next();
    assert_eq!(iter.len(), 0);
    // The length does not underflow once the iterator is exhausted.
    iter.next();
    assert_eq!(iter.len(), 0);
}

#[test]
fn next() {
    let a = a();
    let mut iter = a.into_iter();
    let first = iter.next().unwrap();
    assert_eq!(first.read(), 3);
    let second = iter.next().unwrap();
    assert_eq!(second.read(), 4);
    assert!(iter.next().is_none());
}

#[test]
fn nth() {
    let a = a();
    assert_eq!(a.into_iter().nth(0).unwrap().read(), 3);
    assert_eq!(a.into_iter().nth(1).unwrap().read(), 4);
    assert!(a.into_iter().nth(2).is_none());
    let mut iter = a.into_iter();
    assert_eq!(iter.nth(1).unwrap().read(), 4);
    assert_eq!(iter.len(), 0);
    let mut iter = a.into_iter();
    assert!(iter.nth(2).is_none());
    assert_eq!(iter.len(), 0);
    let mut iter = a.into_iter();
    assert!(iter.nth(3).is_none());
    assert_eq!(iter.len(), 0);
}

#[test]
fn size_hint() {
    let a = a();
    let mut iter = a.into_iter();
    assert_eq!(iter.size_hint(), (2, Some(2)));
    iter.next();
    assert_eq!(iter.size_hint(), (1, Some(1)));
    iter.next();
    assert_eq!(iter.size_hint(), (0, Some(0)));
}

#[test]
fn count_after_k_nexts_is_len_minus_k() {
    let values: Vec<u64> = vec![10, 11, 12, 13, 14];
    let reg: CellRegister<Safe, NoAccess> = CellRegister::array(ValueType::U16, &values);
    for k in 0..8usize {
        let mut iter = reg.into_iter();
        for _ in 0..k {
            iter.next();
        }
        assert_eq!(iter.count(), 5usize.saturating_sub(k));
        assert_eq!(iter.len(), 5usize.saturating_sub(k));
    }
}

#[test]
fn nth_on_fresh_iterator() {
    let values: Vec<u64> = vec![7, 8, 9];
    let reg: CellRegister<Safe, NoAccess> = CellRegister::array(ValueType::U8, &values);
    for n in 0..3usize {
        let mut iter = reg.into_iter();
        assert_eq!(iter.nth(n).unwrap().read(), values[n]);
        assert_eq!(iter.len(), 3 - n - 1);
    }
    let mut iter = reg.into_iter();
    assert!(iter.nth(usize::MAX).is_none());
    assert_eq!(iter.len(), 0);
}

#[test]
fn nth_after_next_counts_from_current_index() {
    let values: Vec<u64> = vec![1, 2, 3, 4];
    let reg: CellRegister<Safe, NoAccess> = CellRegister::array(ValueType::U32, &values);
    let mut iter = reg.into_iter();
    iter.next();
    let e = iter.nth(1).unwrap();
    assert_eq!(e.index(), 2);
    assert_eq!(e.read(), 3);
    assert_eq!(iter.len(), 1);
    assert_eq!(iter.next().unwrap().read(), 4);
}

#[test]
fn last_keeps_length_and_ignores_position() {
    let values: Vec<u64> = vec![5, 6, 7];
    let reg: CellRegister<Safe, NoAccess> = CellRegister::array(ValueType::U32, &values);
    let mut iter = reg.into_iter();
    iter.next();
    iter.next();
    let before = iter.len();
    assert_eq!(iter.last().unwrap().read(), 7);
    assert_eq!(iter.len(), before);
    iter.next();
    assert!(iter.last().is_none());
    assert_eq!(iter.len(), 0);
}

#[test]
fn get_is_present_only_in_range() {
    let reg = a();
    assert_eq!(reg.get(0).unwrap().read(), 3);
    assert_eq!(reg.get(1).unwrap().read(), 4);
    assert!(reg.get(2).is_none());
    assert!(reg.get(usize::MAX).is_none());
    assert!(empty().get(0).is_none());
}

#[test]
fn array_element_new_checks_bounds() {
    let reg = a();
    assert_eq!(ArrayElement::new(&reg, 1).unwrap().index(), 1);
    assert_eq!(ArrayElement::new(&reg, 1).unwrap().read(), 4);
    assert!(ArrayElement::new(&reg, 2).is_none());
}

#[test]
fn array_iter_new_starts_at_zero() {
    let reg = a();
    let mut iter = ArrayIter::new(&reg);
    assert_eq!(iter.len(), 2);
    assert_eq!(iter.next().unwrap().index(), 0);
}
