//! An integer held by value.

use vstd::prelude::*;

verus! {

/// An `i32` stored inline. Copying an `A` copies the integer, so two values
/// never share storage.
#[derive(Clone, Copy)]
pub struct A {
    data: i32,
}

impl View for A {
    type V = i32;

    /// The integer held.
    closed spec fn view(&self) -> i32 {
        self.data
    }
}

impl A {
    /// Wraps `data`.
    pub fn new(data: i32) -> (a: Self)
        ensures
            a@ == data,
    {
        A { data }
    }

    /// Borrows the integer.
    pub fn data(&self) -> (value: &i32)
        ensures
            *value == self@,
    {
        &self.data
    }

    /// Borrows the integer for writing: what is left in the borrow when it
    /// ends is what `self` holds from then on.
    pub fn mut_data(&mut self) -> (value: &mut i32)
        ensures
            *value == old(self)@,
            final(self)@ == *final(value),
    {
        &mut self.data
    }
}

} // verus!
