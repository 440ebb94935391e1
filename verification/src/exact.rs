//! The exact strand: an integer of unbounded size, held as its little-endian
//! two's-complement bytes. Its arithmetic, comparison, narrowing and decimal
//! text come from `num_bigint::BigInt`, through the trusted wrappers below;
//! each decodes its operands with `BigInt::from_signed_bytes_le` and encodes
//! its result with `BigInt::to_signed_bytes_le`.

use crate::arith::{fits_i64, trunc_div, trunc_rem};
use crate::text::decimal_text;
use core::cmp::Ordering;
use num_bigint::BigInt;
use num_traits::ToPrimitive;
use vstd::prelude::*;

verus! {

/// The integer that a little-endian two's-complement byte string denotes.
/// The last byte carries the sign; the empty string denotes zero.
pub open spec fn twos_complement_value(bytes: Seq<u8>) -> int
    decreases bytes.len(),
{
    if bytes.len() == 0 {
        0
    } else if bytes.len() == 1 {
        if bytes[0] < 128 {
            bytes[0] as int
        } else {
            bytes[0] - 256
        }
    } else {
        bytes[0] + 256 * twos_complement_value(bytes.drop_first())
    }
}

/// Whether `x` is representable as an `i32`.
pub open spec fn fits_i32(x: int) -> bool {
    i32::MIN <= x <= i32::MAX
}

/// Whether `x` is representable as an `i16`.
pub open spec fn fits_i16(x: int) -> bool {
    i16::MIN <= x <= i16::MAX
}

/// The order of two integers, as `Ord::cmp` reports it.
pub open spec fn order_of(a: int, b: int) -> Ordering {
    if a < b {
        Ordering::Less
    } else if a == b {
        Ordering::Equal
    } else {
        Ordering::Greater
    }
}

/// An integer of unbounded size: the value that its bytes denote.
#[derive(Debug)]
pub struct ExactInt {
    bytes: Vec<u8>,
}

impl View for ExactInt {
    type V = int;

    closed spec fn view(&self) -> int {
        twos_complement_value(self.bytes@)
    }
}

impl ExactInt {
    /// The integer that `bytes` denote in little-endian two's complement
    /// (the encoding of `BigInt::from_signed_bytes_le`).
    pub fn from_signed_bytes_le(bytes: Vec<u8>) -> (r: ExactInt)
        ensures
            r@ == twos_complement_value(bytes@),
    {
        ExactInt { bytes }
    }

    /// Little-endian two's-complement bytes that denote this integer.
    pub fn to_signed_bytes_le(&self) -> (r: Vec<u8>)
        ensures
            twos_complement_value(r@) == self@,
    {
        self.bytes.clone()
    }

    /// The decimal text of this integer, as `Display` writes it.
    pub fn to_string(&self) -> (r: String)
        ensures
            r@ == decimal_text(self@),
    {
        bigint_to_string(self)
    }
}

impl Clone for ExactInt {
    fn clone(&self) -> (r: Self)
        ensures
            r@ == self@,
    {
        ExactInt { bytes: self.bytes.clone() }
    }
}

/// `BigInt::from(i64)`: the result denotes `v`.
#[verifier::external_body]
pub(crate) fn bigint_from_i64(v: i64) -> (r: ExactInt)
    ensures
        r@ == v,
{
    ExactInt { bytes: BigInt::from(v).to_signed_bytes_le() }
}

/// `BigInt + BigInt`: the result denotes the sum.
#[verifier::external_body]
pub(crate) fn bigint_add(a: &ExactInt, b: &ExactInt) -> (r: ExactInt)
    ensures
        r@ == a@ + b@,
{
    let x = BigInt::from_signed_bytes_le(&a.bytes);
    let y = BigInt::from_signed_bytes_le(&b.bytes);
    ExactInt { bytes: (x + y).to_signed_bytes_le() }
}

/// `BigInt - BigInt`: the result denotes the difference.
#[verifier::external_body]
pub(crate) fn bigint_sub(a: &ExactInt, b: &ExactInt) -> (r: ExactInt)
    ensures
        r@ == a@ - b@,
{
    let x = BigInt::from_signed_bytes_le(&a.bytes);
    let y = BigInt::from_signed_bytes_le(&b.bytes);
    ExactInt { bytes: (x - y).to_signed_bytes_le() }
}

/// `BigInt * BigInt`: the result denotes the product.
#[verifier::external_body]
pub(crate) fn bigint_mul(a: &ExactInt, b: &ExactInt) -> (r: ExactInt)
    ensures
        r@ == a@ * b@,
{
    let x = BigInt::from_signed_bytes_le(&a.bytes);
    let y = BigInt::from_signed_bytes_le(&b.bytes);
    ExactInt { bytes: (x * y).to_signed_bytes_le() }
}

/// `BigInt / BigInt`: the quotient truncated towards zero (`Integer::div_rem`
/// gives the quotient the product of the signs). It panics on a zero divisor,
/// which `requires` leaves out.
#[verifier::external_body]
pub(crate) fn bigint_div(a: &ExactInt, b: &ExactInt) -> (r: ExactInt)
    requires
        b@ != 0,
    ensures
        r@ == trunc_div(a@, b@),
{
    let x = BigInt::from_signed_bytes_le(&a.bytes);
    let y = BigInt::from_signed_bytes_le(&b.bytes);
    ExactInt { bytes: (x / y).to_signed_bytes_le() }
}

/// `BigInt % BigInt`: the remainder with the sign of the dividend. It panics on
/// a zero divisor, which `requires` leaves out.
#[verifier::external_body]
pub(crate) fn bigint_rem(a: &ExactInt, b: &ExactInt) -> (r: ExactInt)
    requires
        b@ != 0,
    ensures
        r@ == trunc_rem(a@, b@),
{
    let x = BigInt::from_signed_bytes_le(&a.bytes);
    let y = BigInt::from_signed_bytes_le(&b.bytes);
    ExactInt { bytes: (x % y).to_signed_bytes_le() }
}

/// `-BigInt`: the result denotes the negation.
#[verifier::external_body]
pub(crate) fn bigint_neg(a: &ExactInt) -> (r: ExactInt)
    ensures
        r@ == -a@,
{
    ExactInt { bytes: (-BigInt::from_signed_bytes_le(&a.bytes)).to_signed_bytes_le() }
}

/// `BigInt == BigInt`: true exactly when the values are equal.
#[verifier::external_body]
pub(crate) fn bigint_eq(a: &ExactInt, b: &ExactInt) -> (r: bool)
    ensures
        r == (a@ == b@),
{
    BigInt::from_signed_bytes_le(&a.bytes) == BigInt::from_signed_bytes_le(&b.bytes)
}

/// `Ord::cmp` on `BigInt`: the order of the values.
#[verifier::external_body]
pub(crate) fn bigint_order(a: &ExactInt, b: &ExactInt) -> (r: Ordering)
    ensures
        r == order_of(a@, b@),
{
    BigInt::from_signed_bytes_le(&a.bytes).cmp(&BigInt::from_signed_bytes_le(&b.bytes))
}

/// `ToPrimitive::to_i64` on `BigInt`: the value when it fits in an `i64`,
/// `None` otherwise.
#[verifier::external_body]
pub(crate) fn bigint_to_i64(a: &ExactInt) -> (r: Option<i64>)
    ensures
        r == (if fits_i64(a@) {
            Some(a@ as i64)
        } else {
            None
        }),
{
    BigInt::from_signed_bytes_le(&a.bytes).to_i64()
}

/// `ToPrimitive::to_i32` on `BigInt`: the value when it fits in an `i32`,
/// `None` otherwise.
#[verifier::external_body]
pub(crate) fn bigint_to_i32(a: &ExactInt) -> (r: Option<i32>)
    ensures
        r == (if fits_i32(a@) {
            Some(a@ as i32)
        } else {
            None
        }),
{
    BigInt::from_signed_bytes_le(&a.bytes).to_i32()
}

/// `ToPrimitive::to_i16` on `BigInt`: the value when it fits in an `i16`,
/// `None` otherwise.
#[verifier::external_body]
pub(crate) fn bigint_to_i16(a: &ExactInt) -> (r: Option<i16>)
    ensures
        r == (if fits_i16(a@) {
            Some(a@ as i16)
        } else {
            None
        }),
{
    BigInt::from_signed_bytes_le(&a.bytes).to_i16()
}

/// `<BigInt as Display>::fmt` through `to_string`: the decimal digits of the
/// magnitude (`to_str_radix(10)`), preceded by `-` when the value is negative.
#[verifier::external_body]
pub(crate) fn bigint_to_string(a: &ExactInt) -> (r: String)
    ensures
        r@ == decimal_text(a@),
{
    BigInt::from_signed_bytes_le(&a.bytes).to_string()
}

} // verus!
