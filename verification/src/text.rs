//! Decimal text of integers, as `Display` writes it for integer types.

use vstd::prelude::*;

verus! {

/// The ASCII character of the decimal digit `d` (for `d < 10`).
pub open spec fn digit_char(d: nat) -> char {
    (48 + d) as char
}

/// The decimal digits of `n`, most significant first, without leading zeros
/// (`"0"` for zero).
pub open spec fn natural_text(n: nat) -> Seq<char>
    decreases n,
{
    if n < 10 {
        seq![digit_char(n)]
    } else {
        natural_text(n / 10).push(digit_char(n % 10))
    }
}

/// The decimal text of `x`: its digits, preceded by `-` when `x` is negative.
pub open spec fn decimal_text(x: int) -> Seq<char> {
    if x < 0 {
        seq!['-'] + natural_text((-x) as nat)
    } else {
        natural_text(x as nat)
    }
}

/// `<i64 as Display>::fmt` through `to_string`: the decimal text of `v`.
#[verifier::external_body]
pub(crate) fn i64_text(v: i64) -> (r: String)
    ensures
        r@ == decimal_text(v as int),
{
    v.to_string()
}

/// `<u32 as Display>::fmt` through `to_string`: the decimal text of `v`.
#[verifier::external_body]
pub(crate) fn u32_text(v: u32) -> (r: String)
    ensures
        r@ == decimal_text(v as int),
{
    v.to_string()
}

} // verus!
