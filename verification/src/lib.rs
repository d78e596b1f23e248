use vstd::prelude::*;

pub mod counting;
pub mod engine;
pub mod laws;
pub mod rank;
pub mod trusted;
pub mod types;

verus! {

/// Sum of two integers.
pub fn add(a: i32, b: i32) -> (r: i32)
    requires
        i32::MIN <= a + b <= i32::MAX,
    ensures
        r == a + b,
{
    a + b
}

} // verus!
