//! Array elements and iteration over an array register.
use vstd::prelude::*;
use crate::register::{ArrayRead, ArrayRegister, ArrayUnsafeRead, ArrayUnsafeWrite, ArrayWrite};

verus! {

/// A reference to one element of an array register. Its index is checked
/// once, when the element is made, and is in range for as long as it lives.
pub struct ArrayElement<'a, R: ArrayRegister> {
    index: usize,
    register: &'a R,
}

impl<'a, R: ArrayRegister> ArrayElement<'a, R> {
    #[verifier::type_invariant]
    spec fn in_bounds(&self) -> bool {
        self.index < self.register.spec_len()
    }

    pub closed spec fn spec_index(&self) -> nat {
        self.index as nat
    }

    pub closed spec fn spec_register(&self) -> R {
        *self.register
    }

    /// The element at `index`, or `None` when `index` is out of range.
    pub fn new(register: &'a R, index: usize) -> (r: Option<Self>)
        ensures
            r is Some <==> index < register.spec_len(),
            r matches Some(e) ==> e.spec_index() == index && e.spec_register() == *register,
    {
        if index >= register.len() {
            return None;
        }
        Some(ArrayElement { index, register })
    }

    pub fn index(&self) -> (r: usize)
        ensures
            r == self.spec_index(),
            r < self.spec_register().spec_len(),
    {
        proof {
            use_type_invariant(self);
        }
        self.index
    }
}

impl<'a, R: ArrayRead> ArrayElement<'a, R> {
    /// Reads the element.
    pub fn read(&self) -> (r: u64)
        ensures
            self.spec_register().reads_as(self.spec_index(), r),
    {
        proof {
            use_type_invariant(self);
        }
        self.register.read_unchecked(self.index)
    }
}

impl<'a, R: ArrayUnsafeRead> ArrayElement<'a, R> {
    /// Reads the element. The caller upholds the register's hardware-specific
    /// requirements.
    pub fn unsafe_read(&self) -> (r: u64)
        ensures
            self.spec_register().reads_as(self.spec_index(), r),
    {
        proof {
            use_type_invariant(self);
        }
        ArrayUnsafeRead::read_unchecked(self.register, self.index)
    }
}

/// One element of an array register that holds the register itself, so
/// that the element can be written as well as read. Its index is checked
/// once, when it is made; `into_register` gives the register back.
pub struct OwnedArrayElement<R: ArrayRegister> {
    index: usize,
    register: R,
}

impl<R: ArrayRegister> OwnedArrayElement<R> {
    #[verifier::type_invariant]
    spec fn in_bounds(&self) -> bool {
        self.index < self.register.spec_len()
    }

    pub closed spec fn spec_index(&self) -> nat {
        self.index as nat
    }

    pub closed spec fn spec_register(&self) -> R {
        self.register
    }

    /// The element at `index`, or the register back when `index` is out of
    /// range.
    pub fn new(register: R, index: usize) -> (r: Result<Self, R>)
        ensures
            r is Ok <==> index < register.spec_len(),
            r matches Ok(e) ==> e.spec_index() == index && e.spec_register() == register,
            r matches Err(g) ==> g == register,
    {
        if index >= register.len() {
            return Err(register);
        }
        Ok(OwnedArrayElement { index, register })
    }

    pub fn index(&self) -> (r: usize)
        ensures
            r == self.spec_index(),
            r < self.spec_register().spec_len(),
    {
        proof {
            use_type_invariant(self);
        }
        self.index
    }

    pub fn into_register(self) -> (r: R)
        ensures
            r == self.spec_register(),
    {
        self.register
    }
}

impl<R: ArrayRead> OwnedArrayElement<R> {
    /// Reads the element.
    pub fn read(&self) -> (r: u64)
        ensures
            self.spec_register().reads_as(self.spec_index(), r),
    {
        proof {
            use_type_invariant(self);
        }
        self.register.read_unchecked(self.index)
    }
}

impl<R: ArrayUnsafeRead> OwnedArrayElement<R> {
    /// Reads the element. The caller upholds the register's hardware-specific
    /// requirements.
    pub fn unsafe_read(&self) -> (r: u64)
        ensures
            self.spec_register().reads_as(self.spec_index(), r),
    {
        proof {
            use_type_invariant(self);
        }
        ArrayUnsafeRead::read_unchecked(&self.register, self.index)
    }
}

impl<R: ArrayWrite> OwnedArrayElement<R> {
    /// Writes `value` to the element, and gives the element back.
    pub fn write(self, value: u64) -> (r: Self)
        ensures
            r.spec_index() == self.spec_index(),
            self.spec_register().writes_as(r.spec_register(), self.spec_index(), value),
    {
        proof {
            use_type_invariant(&self);
        }
        let OwnedArrayElement { index, mut register } = self;
        register.write_unchecked(index, value);
        OwnedArrayElement { index, register }
    }
}

impl<R: ArrayUnsafeWrite> OwnedArrayElement<R> {
    /// Writes `value` to the element, and gives the element back. The
    /// caller upholds the register's hardware-specific requirements.
    pub fn unsafe_write(self, value: u64) -> (r: Self)
        ensures
            r.spec_index() == self.spec_index(),
            self.spec_register().writes_as(r.spec_register(), self.spec_index(), value),
    {
        proof {
            use_type_invariant(&self);
        }
        let OwnedArrayElement { index, mut register } = self;
        ArrayUnsafeWrite::write_unchecked(&mut register, index, value);
        OwnedArrayElement { index, register }
    }
}

/// Index reached by `next` from `index` over `len` elements.
pub open spec fn next_index(index: nat, len: nat) -> nat {
    if index < len {
        index + 1
    } else {
        index
    }
}

/// Index reached by `nth(n)` from `index` over `len` elements: just past the
/// element it returns, or `len` when there is none.
pub open spec fn nth_index(index: nat, len: nat, n: nat) -> nat {
    if index + n < len {
        index + n + 1
    } else {
        len
    }
}

/// Index reached by `k` calls of `next` from `start`.
pub open spec fn index_after_nexts(start: nat, len: nat, k: nat) -> nat
    decreases k,
{
    if k == 0 {
        start
    } else {
        next_index(index_after_nexts(start, len, (k - 1) as nat), len)
    }
}

/// An iterator over the elements of an array register, in index order.
pub struct ArrayIter<'a, R: ArrayRegister> {
    index: usize,
    register: &'a R,
}

impl<'a, R: ArrayRegister> ArrayIter<'a, R> {
    #[verifier::type_invariant]
    spec fn within(&self) -> bool {
        self.index <= self.register.spec_len()
    }

    /// Index of the next element to produce.
    pub closed spec fn spec_index(&self) -> nat {
        self.index as nat
    }

    pub closed spec fn spec_register(&self) -> R {
        *self.register
    }

    /// Number of elements still to produce.
    pub open spec fn remaining(&self) -> nat {
        (self.spec_register().spec_len() - self.spec_index()) as nat
    }

    /// An iterator over all elements of `register`.
    pub fn new(register: &'a R) -> (r: Self)
        ensures
            r.spec_index() == 0,
            r.spec_register() == *register,
    {
        ArrayIter { index: 0, register }
    }

    /// The next element, if any is left.
    pub fn next(&mut self) -> (r: Option<ArrayElement<'a, R>>)
        ensures
            final(self).spec_register() == old(self).spec_register(),
            final(self).spec_index() == next_index(
                old(self).spec_index(),
                old(self).spec_register().spec_len(),
            ),
            r is Some <==> old(self).spec_index() < old(self).spec_register().spec_len(),
            r matches Some(e) ==> e.spec_index() == old(self).spec_index() && e.spec_register()
                == old(self).spec_register(),
    {
        proof {
            use_type_invariant(&*self);
        }
        let len = self.register.len();
        let out = ArrayElement::new(self.register, self.index);
        if self.index < len {
            self.index = self.index + 1;
        }
        out
    }

    /// Number of elements still to produce.
    pub fn len(&self) -> (r: usize)
        ensures
            r == self.remaining(),
            self.spec_index() <= self.spec_register().spec_len(),
    {
        proof {
            use_type_invariant(self);
        }
        self.register.len() - self.index
    }

    /// Exact bounds on the number of elements still to produce.
    pub fn size_hint(&self) -> (r: (usize, Option<usize>))
        ensures
            r.0 == self.remaining(),
            r.1 == Some(self.remaining() as usize),
    {
        let len = self.len();
        (len, Some(len))
    }

    /// Number of elements still to produce.
    pub fn count(&self) -> (r: usize)
        ensures
            r == self.remaining(),
    {
        self.len()
    }

    /// The last element, unless the iterator is exhausted.
    pub fn last(&self) -> (r: Option<ArrayElement<'a, R>>)
        ensures
            r is Some <==> self.spec_index() < self.spec_register().spec_len(),
            r matches Some(e) ==> e.spec_index() == self.spec_register().spec_len() - 1
                && e.spec_register() == self.spec_register(),
    {
        proof {
            use_type_invariant(self);
        }
        let len = self.register.len();
        if self.index >= len {
            return None;
        }
        ArrayElement::new(self.register, len - 1)
    }

    /// Skips `n` elements and returns the one after them. When fewer than
    /// `n + 1` elements are left, the iterator is exhausted and `None` is
    /// returned.
    pub fn nth(&mut self, n: usize) -> (r: Option<ArrayElement<'a, R>>)
        ensures
            final(self).spec_register() == old(self).spec_register(),
            final(self).spec_index() == nth_index(
                old(self).spec_index(),
                old(self).spec_register().spec_len(),
                n as nat,
            ),
            r is Some <==> old(self).spec_index() + n < old(self).spec_register().spec_len(),
            r matches Some(e) ==> e.spec_index() == old(self).spec_index() + n && e.spec_register()
                == old(self).spec_register(),
    {
        proof {
            use_type_invariant(&*self);
        }
        let len = self.register.len();
        if n >= len - self.index {
            self.index = len;
            return None;
        }
        let out = ArrayElement::new(self.register, self.index + n);
        self.index = self.index + n + 1;
        out
    }
}

/// After `k` calls of `next` on a fresh iterator over `len` elements,
/// `count` (and `len`) give `len - k`, and 0 once `k` reaches `len`: the
/// count never underflows.
pub proof fn lemma_count_after_nexts(len: nat, k: nat)
    ensures
        index_after_nexts(0, len, k) <= len,
        len - index_after_nexts(0, len, k) == if k <= len {
            len - k
        } else {
            0
        },
    decreases k,
{
    if k > 0 {
        lemma_count_after_nexts(len, (k - 1) as nat);
    }
}

/// `nth(n)` on a fresh iterator over `len` elements returns the element at
/// `n` and leaves `len - n - 1` elements when `n < len`; otherwise it returns
/// nothing and leaves none, however large `n` is.
pub proof fn lemma_nth_on_fresh(len: nat, n: nat)
    ensures
        n < len ==> len - nth_index(0, len, n) == len - n - 1,
        n >= len ==> nth_index(0, len, n) == len,
{
}

} // verus!
