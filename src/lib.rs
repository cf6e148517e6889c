//! Typed access to memory-mapped peripheral registers: validation of a
//! peripheral's description (names, operations, offsets), the accessor
//! surface of each register, address computation for memory-mapped access,
//! array elements and iteration, and a cell-backed fake backend for tests.
pub mod access;
pub mod accessor;
pub mod array;
pub mod cell;
pub mod descriptor;
pub mod fake;
pub mod layout;
pub mod mmio;
pub mod peripheral;
pub mod register;
