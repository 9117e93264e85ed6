use vstd::prelude::*;

verus! {

/// The greeting of the companion library.
pub fn test_func() -> (r: String)
    ensures
        r@ == "Hello world from library"@,
{
    String::from_str("Hello world from library")
}

/// The sum of two small signed integers, which always fits in an `i16`.
pub fn add_numbers(a: i8, b: i8) -> (r: i16)
    ensures
        r == a + b,
{
    a as i16 + b as i16
}

} // verus!
