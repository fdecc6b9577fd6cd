use vstd::prelude::*;

verus! {

/// The difference of two numbers, where it is a number of the same width.
pub fn sub(a: i32, b: i32) -> (difference: i32)
    requires
        i32::MIN <= a - b <= i32::MAX,
    ensures
        difference == a - b,
{
    a - b
}

} // verus!
