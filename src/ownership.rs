//! Moving a heap allocation moves its handle, not its contents.

use vstd::prelude::*;

verus! {

/// The size of the buffer that `allocate_vec_heap_memory` makes.
pub const BUFFER_LEN: usize = 1048576;

/// Relies on the `Pointer` formatting of std: the address at which the
/// vector's elements live.
#[verifier::external_body]
fn heap_address(v: &Vec<u8>) -> String {
    format!("{:p}", v.as_slice())
}

/// Allocates a zeroed buffer of `BUFFER_LEN` bytes and returns it, moved to
/// the caller, with the address of its contents.
pub fn allocate_vec_heap_memory() -> (r: (Vec<u8>, String))
    ensures
        r.0@ == Seq::new(BUFFER_LEN as nat, |i: int| 0u8),
{
    let v1: Vec<u8> = vec![0u8; BUFFER_LEN];
    let addr = heap_address(&v1);
    assert(v1@ =~= Seq::new(BUFFER_LEN as nat, |i: int| 0u8));
    (v1, addr)
}

/// Takes ownership of a freshly allocated buffer and tells whether its
/// contents still sit at the address they had before the move.
pub fn read_vec_heap_memory() -> (same_place: bool) {
    let (v2, addr) = allocate_vec_heap_memory();
    let moved_addr = heap_address(&v2);
    moved_addr == addr
}

/// Takes two vectors by value and gives them back, with a number.
fn hand_back(v1: Vec<i32>, v2: Vec<i32>) -> (r: (Vec<i32>, Vec<i32>, i32))
    ensures
        r.0@ == v1@,
        r.1@ == v2@,
        r.2 == 21,
{
    (v1, v2, 21)
}

/// Moves two vectors into a function; they are no longer usable here.
pub fn sample_2() {
    let v1: Vec<i32> = vec![1, 2, 3];
    let v2: Vec<i32> = vec![3, 4, 5];
    hand_back(v1, v2);
}

} // verus!
