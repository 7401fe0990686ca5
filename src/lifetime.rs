//! A struct that holds a borrowed integer for as long as it lives.

use vstd::prelude::*;

verus! {

/// Holds a reference to an `i32` that outlives the wrapper.
pub struct I32Wrapper<'a> {
    pub x: &'a i32,
}

impl<'a> I32Wrapper<'a> {
    /// Points the wrapper at `y`, which must live as long as the wrapper.
    pub fn set_value(&mut self, y: &'a i32)
        ensures
            *final(self).x == *y,
    {
        self.x = y;
    }
}

} // verus!
