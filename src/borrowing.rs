//! Shared and exclusive borrows of vectors.

use vstd::prelude::*;

verus! {

/// Reads two vectors through shared borrows and leaves both as they are.
pub fn foo(_v1: &Vec<i32>, _v2: &Vec<i32>) {
}

/// How many tens `foo_2` appends to a vector of length `len`: one, and then
/// more until the length reaches ten.
pub open spec fn tens_appended(len: nat) -> nat {
    if len >= 9 {
        1
    } else {
        (10 - len) as nat
    }
}

/// Appends 10 through an exclusive borrow, and keeps appending while the
/// vector is shorter than ten.
pub fn foo_2(v: &mut Vec<i32>)
    requires
        old(v)@.len() < usize::MAX,
    ensures
        final(v)@ == old(v)@ + Seq::new(tens_appended(old(v)@.len()), |i: int| 10i32),
    decreases 10 - old(v)@.len(),
{
    v.push(10);
    if v.len() < 10 {
        foo_2(v);
    }
    assert(final(v)@ =~= old(v)@ + Seq::new(tens_appended(old(v)@.len()), |i: int| 10i32));
}

/// Adds one to a local through an exclusive borrow, and returns the local
/// once the borrow has ended.
pub fn foo_3() -> (r: i32)
    ensures
        r == 6,
{
    let mut x: i32 = 5;
    {
        let y = &mut x;
        *y = *y + 1;
    }
    let seen: i32 = x;
    x = 7;
    let _z = &mut x;
    seen
}

} // verus!
