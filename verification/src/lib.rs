use vstd::prelude::*;

pub mod carol;
pub mod fib;

verus! {

/// Adds one to its argument.
pub fn plus_one(x: i32) -> (r: i32)
    requires
        x < i32::MAX,
    ensures
        r == x + 1,
{
    x + 1
}

} // verus!
