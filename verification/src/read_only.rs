//! A read-only view of a value borrowed from an owner.

use core::marker::PhantomData;
use vstd::prelude::*;

verus! {

/// A value that may be read but not changed, tied to the lifetime of its owner.
pub struct ReadOnly<'a, T> {
    value: T,
    owner: PhantomData<&'a ()>,
}

impl<'a, T> ReadOnly<'a, T> {
    /// The value held.
    pub closed spec fn spec_value(&self) -> T {
        self.value
    }

    /// Wrap `value`.
    pub fn new(value: T) -> (r: Self)
        ensures
            r.spec_value() == value,
    {
        ReadOnly { value, owner: PhantomData }
    }

    /// Borrow the value held.
    pub fn get(&self) -> (v: &T)
        ensures
            *v == self.spec_value(),
    {
        &self.value
    }
}

impl<'a, T> core::ops::Deref for ReadOnly<'a, T> {
    type Target = T;

    fn deref(&self) -> (v: &T)
        ensures
            *v == self.spec_value(),
    {
        &self.value
    }
}

} // verus!
