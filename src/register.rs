//! The operations a register handle offers. A handle offers exactly the
//! operations its register declares: the safe ones through `Read`, `Write`,
//! `ArrayRead` and `ArrayWrite`, those with hardware-specific requirements
//! through the `Unsafe*` traits.
use vstd::prelude::*;

verus! {

/// Returned by a checked array write whose index is out of range.
#[derive(Clone, Copy, Debug, PartialEq, Eq, Structural)]
pub struct OutOfBounds;

/// A register: one value, or an array of values.
pub trait Register: Sized {
    /// Number of elements (1 for a scalar register).
    spec fn spec_len(&self) -> nat;

    /// Whether the register holds a single value rather than an array.
    spec fn spec_scalar(&self) -> bool;

    /// `value` is what a read of element `index` returns.
    spec fn reads_as(&self, index: nat, value: u64) -> bool;

    /// `after` is this register once `value` has been written to element
    /// `index`.
    spec fn writes_as(&self, after: Self, index: nat, value: u64) -> bool;

    fn len(&self) -> (r: usize)
        ensures
            r == self.spec_len(),
    ;
}

/// A register of array type. Its elements are reached through the
/// register's `get`, the one place where an index is checked against the
/// length, or through an `ArrayIter`.
pub trait ArrayRegister: Register {}

/// An array register that is safely readable.
pub trait ArrayRead: ArrayRegister {
    fn read_unchecked(&self, index: usize) -> (r: u64)
        requires
            index < self.spec_len(),
        ensures
            self.reads_as(index as nat, r),
    ;
}

/// An array register that is safely writable.
pub trait ArrayWrite: ArrayRegister {
    fn write_unchecked(&mut self, index: usize, value: u64)
        requires
            index < old(self).spec_len(),
        ensures
            old(self).writes_as(*final(self), index as nat, value),
            final(self).spec_len() == old(self).spec_len(),
    ;
}

/// An array register whose reads have hardware-specific requirements.
pub trait ArrayUnsafeRead: ArrayRegister {
    fn read_unchecked(&self, index: usize) -> (r: u64)
        requires
            index < self.spec_len(),
        ensures
            self.reads_as(index as nat, r),
    ;
}

/// An array register whose writes have hardware-specific requirements.
pub trait ArrayUnsafeWrite: ArrayRegister {
    fn write_unchecked(&mut self, index: usize, value: u64)
        requires
            index < old(self).spec_len(),
        ensures
            old(self).writes_as(*final(self), index as nat, value),
            final(self).spec_len() == old(self).spec_len(),
    ;
}

/// A scalar register that is safely readable.
pub trait Read: Register {
    fn read(&self) -> (r: u64)
        requires
            self.spec_scalar(),
        ensures
            self.reads_as(0, r),
    ;
}

/// A scalar register that is safely writable.
pub trait Write: Register {
    fn write(&mut self, value: u64)
        requires
            old(self).spec_scalar(),
        ensures
            old(self).writes_as(*final(self), 0, value),
            final(self).spec_len() == old(self).spec_len(),
            final(self).spec_scalar(),
    ;
}

/// A scalar register whose reads have hardware-specific requirements.
pub trait UnsafeRead: Register {
    fn read(&self) -> (r: u64)
        requires
            self.spec_scalar(),
        ensures
            self.reads_as(0, r),
    ;
}

/// A scalar register whose writes have hardware-specific requirements.
pub trait UnsafeWrite: Register {
    fn write(&mut self, value: u64)
        requires
            old(self).spec_scalar(),
        ensures
            old(self).writes_as(*final(self), 0, value),
            final(self).spec_len() == old(self).spec_len(),
            final(self).spec_scalar(),
    ;
}

} // verus!
