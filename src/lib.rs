use vstd::prelude::*;

verus! {

/// The greeting for `name`: `"Hello, "`, then `name` unchanged, then `"!"`.
pub open spec fn greeting(name: Seq<char>) -> Seq<char> {
    "Hello, "@ + name + "!"@
}

/// Returns `"Hello, " + name + "!"`, with `name` neither trimmed nor truncated.
pub fn greet(name: &str) -> (r: String)
    ensures
        r@ == greeting(name@),
{
    let mut r = String::from_str("Hello, ");
    r.append(name);
    r.append("!");
    r
}

/// The 32-bit two's-complement sum of `a` and `b`: the exact sum where it fits
/// in `i32`, otherwise the exact sum moved by 2^32 back into range.
pub open spec fn sum_i32(a: i32, b: i32) -> int {
    if a + b > i32::MAX {
        a + b - 0x1_0000_0000
    } else if a + b < i32::MIN {
        a + b + 0x1_0000_0000
    } else {
        a + b
    }
}

/// Returns the sum of `a` and `b`, wrapping around on overflow.
pub fn add(a: i32, b: i32) -> (r: i32)
    ensures
        r == sum_i32(a, b),
        i32::MIN <= a + b <= i32::MAX ==> r == a + b,
{
    a.wrapping_add(b)
}

/// Equal names give equal greetings: `greet` depends on its argument alone.
pub proof fn greet_is_pure(name: Seq<char>, r1: Seq<char>, r2: Seq<char>)
    requires
        r1 == greeting(name),
        r2 == greeting(name),
    ensures
        r1 == r2,
{
}

/// Equal operands give equal sums: `add` depends on its arguments alone.
pub proof fn add_is_pure(a: i32, b: i32, r1: i32, r2: i32)
    requires
        r1 == sum_i32(a, b),
        r2 == sum_i32(a, b),
    ensures
        r1 == r2,
{
}

} // verus!
