//! `MobiusInteger`: the machine strand and the exact strand, carried together.

use crate::arith::{fits_i64, lemma_wrap_fits, trunc_div, trunc_rem, wrap_i64};
use crate::exact::{
    bigint_add, bigint_div, bigint_from_i64, bigint_mul, bigint_neg, bigint_order, bigint_rem,
    bigint_sub, bigint_to_i16, bigint_to_i32, bigint_to_i64, fits_i16, fits_i32, ExactInt,
};
use crate::text::{decimal_text, i64_text, u32_text};
use crate::machine::{
    lemma_wrapping_add, lemma_wrapping_mul, lemma_wrapping_sub, wrapping_div_i64, wrapping_rem_i64,
};
use core::cmp::Ordering;
use core::ops::{Add, Div, Mul, Neg, Rem, Sub};
use vstd::prelude::*;

verus! {

/// Error returned when a narrowing conversion would overflow.
#[derive(Debug, Clone)]
pub struct OverflowError {
    pub exact_value: ExactInt,
    pub target_bits: u32,
}

/// A dual-strand integer: a machine `i64` that wraps like hardware, and an exact
/// integer that never overflows. Comparison and collapse use the exact strand.
#[derive(Debug)]
pub struct MobiusInteger {
    machine: i64,
    exact: ExactInt,
}

/// Short name for `MobiusInteger`.
pub type Mi = MobiusInteger;

/// The `i64` that saturation gives for `x`: `x` itself when it fits, otherwise
/// the bound on its side (`i64::MAX` above, `i64::MIN` below).
pub open spec fn saturate_i64(x: int) -> int {
    if fits_i64(x) {
        x
    } else if x > 0 {
        i64::MAX as int
    } else {
        i64::MIN as int
    }
}

/// The text that `Display` writes for a value with these strands: the exact
/// value, followed by the machine value and a `CORRUPTED` mark when they differ.
pub open spec fn display_text(machine: int, exact: int) -> Seq<char> {
    if machine != exact {
        decimal_text(exact) + " (machine: "@ + decimal_text(machine) + ", CORRUPTED)"@
    } else {
        decimal_text(exact)
    }
}

/// The text that `Display` writes for an `OverflowError`.
pub open spec fn overflow_text(exact: int, bits: int) -> Seq<char> {
    "overflow: "@ + decimal_text(exact) + " does not fit in i"@ + decimal_text(bits)
}

impl OverflowError {
    /// The message of this error, as `Display` writes it.
    pub fn to_string(&self) -> (r: String)
        ensures
            r@ == overflow_text(self.exact_value@, self.target_bits as int),
    {
        let mut s = String::from_str("overflow: ");
        s.append(self.exact_value.to_string().as_str());
        s.append(" does not fit in i");
        s.append(u32_text(self.target_bits).as_str());
        s
    }
}

impl MobiusInteger {
    /// The value of the machine strand.
    pub closed spec fn machine_strand(self) -> int {
        self.machine as int
    }

    /// The value of the exact strand.
    pub closed spec fn exact_strand(self) -> int {
        self.exact@
    }

    /// Whether the machine strand has diverged from the exact strand.
    pub open spec fn corrupted(self) -> bool {
        self.machine_strand() != self.exact_strand()
    }

    /// Whether the machine strand holds what `i64` hardware would hold for the
    /// exact value: the exact value wrapped to 64 bits.
    pub open spec fn hardware_image(self) -> bool {
        self.machine_strand() == wrap_i64(self.exact_strand())
    }

    /// The machine strand is always an `i64`.
    pub proof fn lemma_machine_fits(self)
        ensures
            fits_i64(self.machine_strand()),
    {
    }

    /// Create from an `i64`. Both strands start in agreement.
    pub fn new(value: i64) -> (r: Self)
        ensures
            r.machine_strand() == value,
            r.exact_strand() == value,
            !r.corrupted(),
            r.hardware_image(),
    {
        proof {
            lemma_wrap_fits(value as int);
        }
        MobiusInteger { machine: value, exact: bigint_from_i64(value) }
    }

    /// Create from an exact integer. The machine strand saturates to
    /// `i64::MAX` / `i64::MIN` when the value does not fit.
    pub fn from_big(value: ExactInt) -> (r: Self)
        ensures
            r.exact_strand() == value@,
            r.machine_strand() == saturate_i64(value@),
    {
        let zero = bigint_from_i64(0);
        let bound = match bigint_order(&value, &zero) {
            Ordering::Greater => i64::MAX,
            _ => i64::MIN,
        };
        let machine = bigint_to_i64(&value).unwrap_or(bound);
        MobiusInteger { machine, exact: value }
    }

    /// The hardware-fast strand. May have wrapped.
    pub fn machine(&self) -> (r: i64)
        ensures
            r == self.machine_strand(),
    {
        self.machine
    }

    /// The exact strand. Never overflows.
    pub fn exact(&self) -> (r: &ExactInt)
        ensures
            r@ == self.exact_strand(),
    {
        &self.exact
    }

    /// Collapse to the exact value.
    pub fn collapse(&self) -> (r: ExactInt)
        ensures
            r@ == self.exact_strand(),
    {
        self.exact.clone()
    }

    /// True if the machine strand has diverged from the exact strand.
    pub fn is_corrupted(&self) -> (r: bool)
        ensures
            r == self.corrupted(),
    {
        !bigint_from_i64(self.machine).eq(&self.exact)
    }

    /// Narrow to `i16`, using the exact strand. `Err` when the value does not fit.
    pub fn narrow_i16(&self) -> (r: Result<i16, OverflowError>)
        ensures
            r is Ok <==> fits_i16(self.exact_strand()),
            r matches Ok(v) ==> v == self.exact_strand(),
            r matches Err(e) ==> e.exact_value@ == self.exact_strand() && e.target_bits == 16,
    {
        match bigint_to_i16(&self.exact) {
            Some(v) => Ok(v),
            None => Err(OverflowError { exact_value: self.exact.clone(), target_bits: 16 }),
        }
    }

    /// Narrow to `i32`, using the exact strand. `Err` when the value does not fit.
    pub fn narrow_i32(&self) -> (r: Result<i32, OverflowError>)
        ensures
            r is Ok <==> fits_i32(self.exact_strand()),
            r matches Ok(v) ==> v == self.exact_strand(),
            r matches Err(e) ==> e.exact_value@ == self.exact_strand() && e.target_bits == 32,
    {
        match bigint_to_i32(&self.exact) {
            Some(v) => Ok(v),
            None => Err(OverflowError { exact_value: self.exact.clone(), target_bits: 32 }),
        }
    }

    /// Narrow to `i64`, using the exact strand. `Err` when the value does not fit.
    pub fn narrow_i64(&self) -> (r: Result<i64, OverflowError>)
        ensures
            r is Ok <==> fits_i64(self.exact_strand()),
            r matches Ok(v) ==> v == self.exact_strand(),
            r matches Err(e) ==> e.exact_value@ == self.exact_strand() && e.target_bits == 64,
    {
        match bigint_to_i64(&self.exact) {
            Some(v) => Ok(v),
            None => Err(OverflowError { exact_value: self.exact.clone(), target_bits: 64 }),
        }
    }

    /// The text that `Display` writes: the exact value, and when the strands
    /// differ, the machine value and a `CORRUPTED` mark.
    pub fn to_string(&self) -> (r: String)
        ensures
            r@ == display_text(self.machine_strand(), self.exact_strand()),
            self.corrupted() ==> r@ == decimal_text(self.exact_strand()) + " (machine: "@
                + decimal_text(self.machine_strand()) + ", CORRUPTED)"@,
            !self.corrupted() ==> r@ == decimal_text(self.exact_strand()),
    {
        let text = self.exact.to_string();
        if self.is_corrupted() {
            let mut s = text;
            s.append(" (machine: ");
            s.append(i64_text(self.machine).as_str());
            s.append(", CORRUPTED)");
            s
        } else {
            text
        }
    }
}

impl Clone for MobiusInteger {
    fn clone(&self) -> (r: Self)
        ensures
            r.machine_strand() == self.machine_strand(),
            r.exact_strand() == self.exact_strand(),
    {
        MobiusInteger { machine: self.machine, exact: self.exact.clone() }
    }
}

// Conversions. As for the operators, each states the strands of its result in
// its own `ensures` and claims no single result value through `from_spec`.

impl From<i64> for MobiusInteger {
    fn from(v: i64) -> (r: Self)
        ensures
            r.machine_strand() == v,
            r.exact_strand() == v,
    {
        Self::new(v)
    }
}

impl vstd::std_specs::convert::FromSpecImpl<i64> for MobiusInteger {
    open spec fn obeys_from_spec() -> bool {
        false
    }

    open spec fn from_spec(v: i64) -> Self {
        arbitrary()
    }
}

impl From<i32> for MobiusInteger {
    fn from(v: i32) -> (r: Self)
        ensures
            r.machine_strand() == v,
            r.exact_strand() == v,
    {
        Self::new(v as i64)
    }
}

impl vstd::std_specs::convert::FromSpecImpl<i32> for MobiusInteger {
    open spec fn obeys_from_spec() -> bool {
        false
    }

    open spec fn from_spec(v: i32) -> Self {
        arbitrary()
    }
}

impl From<i16> for MobiusInteger {
    fn from(v: i16) -> (r: Self)
        ensures
            r.machine_strand() == v,
            r.exact_strand() == v,
    {
        Self::new(v as i64)
    }
}

impl vstd::std_specs::convert::FromSpecImpl<i16> for MobiusInteger {
    open spec fn obeys_from_spec() -> bool {
        false
    }

    open spec fn from_spec(v: i16) -> Self {
        arbitrary()
    }
}

impl From<u32> for MobiusInteger {
    fn from(v: u32) -> (r: Self)
        ensures
            r.machine_strand() == v,
            r.exact_strand() == v,
    {
        Self::new(v as i64)
    }
}

impl vstd::std_specs::convert::FromSpecImpl<u32> for MobiusInteger {
    open spec fn obeys_from_spec() -> bool {
        false
    }

    open spec fn from_spec(v: u32) -> Self {
        arbitrary()
    }
}

impl From<ExactInt> for MobiusInteger {
    fn from(v: ExactInt) -> (r: Self)
        ensures
            r.exact_strand() == v@,
            r.machine_strand() == saturate_i64(v@),
    {
        Self::from_big(v)
    }
}

impl vstd::std_specs::convert::FromSpecImpl<ExactInt> for MobiusInteger {
    open spec fn obeys_from_spec() -> bool {
        false
    }

    open spec fn from_spec(v: ExactInt) -> Self {
        arbitrary()
    }
}

// Arithmetic: every operator propagates both strands. The machine strand wraps
// as `i64` hardware does; the exact strand computes the true result.
//
// Each operator states both strands of its result in its own `ensures`. The
// byte encoding of the exact strand is not a function of the operands' values,
// so no operator claims that its result equals one fixed value: `obeys_*_spec`
// is false and the `*_spec` functions are left unspecified.

impl Add for MobiusInteger {
    type Output = Self;

    fn add(self, rhs: Self) -> (r: Self)
        ensures
            r.machine_strand() == wrap_i64(self.machine_strand() + rhs.machine_strand()),
            r.exact_strand() == self.exact_strand() + rhs.exact_strand(),
    {
        proof {
            lemma_wrapping_add(self.machine, rhs.machine);
        }
        MobiusInteger {
            machine: self.machine.wrapping_add(rhs.machine),
            exact: bigint_add(&self.exact, &rhs.exact),
        }
    }
}

impl vstd::std_specs::ops::AddSpecImpl for MobiusInteger {
    open spec fn obeys_add_spec() -> bool {
        false
    }

    open spec fn add_req(self, rhs: Self) -> bool {
        true
    }

    open spec fn add_spec(self, rhs: Self) -> Self {
        arbitrary()
    }
}

impl Sub for MobiusInteger {
    type Output = Self;

    fn sub(self, rhs: Self) -> (r: Self)
        ensures
            r.machine_strand() == wrap_i64(self.machine_strand() - rhs.machine_strand()),
            r.exact_strand() == self.exact_strand() - rhs.exact_strand(),
    {
        proof {
            lemma_wrapping_sub(self.machine, rhs.machine);
        }
        MobiusInteger {
            machine: self.machine.wrapping_sub(rhs.machine),
            exact: bigint_sub(&self.exact, &rhs.exact),
        }
    }
}

impl vstd::std_specs::ops::SubSpecImpl for MobiusInteger {
    open spec fn obeys_sub_spec() -> bool {
        false
    }

    open spec fn sub_req(self, rhs: Self) -> bool {
        true
    }

    open spec fn sub_spec(self, rhs: Self) -> Self {
        arbitrary()
    }
}

impl Mul for MobiusInteger {
    type Output = Self;

    fn mul(self, rhs: Self) -> (r: Self)
        ensures
            r.machine_strand() == wrap_i64(self.machine_strand() * rhs.machine_strand()),
            r.exact_strand() == self.exact_strand() * rhs.exact_strand(),
    {
        proof {
            lemma_wrapping_mul(self.machine, rhs.machine);
        }
        MobiusInteger {
            machine: self.machine.wrapping_mul(rhs.machine),
            exact: bigint_mul(&self.exact, &rhs.exact),
        }
    }
}

impl vstd::std_specs::ops::MulSpecImpl for MobiusInteger {
    open spec fn obeys_mul_spec() -> bool {
        false
    }

    open spec fn mul_req(self, rhs: Self) -> bool {
        true
    }

    open spec fn mul_spec(self, rhs: Self) -> Self {
        arbitrary()
    }
}

impl Div for MobiusInteger {
    type Output = Self;

    fn div(self, rhs: Self) -> (r: Self)
        ensures
            r.machine_strand() == (if rhs.machine_strand() != 0 {
                wrap_i64(trunc_div(self.machine_strand(), rhs.machine_strand()))
            } else {
                0
            }),
            r.exact_strand() == trunc_div(self.exact_strand(), rhs.exact_strand()),
    {
        MobiusInteger {
            machine: if rhs.machine != 0 {
                wrapping_div_i64(self.machine, rhs.machine)
            } else {
                0
            },
            exact: bigint_div(&self.exact, &rhs.exact),
        }
    }
}

impl vstd::std_specs::ops::DivSpecImpl for MobiusInteger {
    open spec fn obeys_div_spec() -> bool {
        false
    }

    open spec fn div_req(self, rhs: Self) -> bool {
        rhs.exact_strand() != 0
    }

    open spec fn div_spec(self, rhs: Self) -> Self {
        arbitrary()
    }
}

impl Rem for MobiusInteger {
    type Output = Self;

    fn rem(self, rhs: Self) -> (r: Self)
        ensures
            r.machine_strand() == (if rhs.machine_strand() != 0 {
                trunc_rem(self.machine_strand(), rhs.machine_strand())
            } else {
                0
            }),
            r.exact_strand() == trunc_rem(self.exact_strand(), rhs.exact_strand()),
    {
        MobiusInteger {
            machine: if rhs.machine != 0 {
                wrapping_rem_i64(self.machine, rhs.machine)
            } else {
                0
            },
            exact: bigint_rem(&self.exact, &rhs.exact),
        }
    }
}

impl vstd::std_specs::ops::RemSpecImpl for MobiusInteger {
    open spec fn obeys_rem_spec() -> bool {
        false
    }

    open spec fn rem_req(self, rhs: Self) -> bool {
        rhs.exact_strand() != 0
    }

    open spec fn rem_spec(self, rhs: Self) -> Self {
        arbitrary()
    }
}

impl Neg for MobiusInteger {
    type Output = Self;

    fn neg(self) -> (r: Self)
        ensures
            r.machine_strand() == wrap_i64(-self.machine_strand()),
            r.exact_strand() == -self.exact_strand(),
    {
        proof {
            lemma_wrapping_sub(0, self.machine);
        }
        MobiusInteger { machine: 0i64.wrapping_sub(self.machine), exact: bigint_neg(&self.exact) }
    }
}

impl vstd::std_specs::ops::NegSpecImpl for MobiusInteger {
    open spec fn obeys_neg_spec() -> bool {
        false
    }

    open spec fn neg_req(self) -> bool {
        true
    }

    open spec fn neg_spec(self) -> Self {
        arbitrary()
    }
}

// The same operators on references, so that operands need not be cloned.

impl<'a> Add for &'a MobiusInteger {
    type Output = MobiusInteger;

    fn add(self, rhs: Self) -> (r: MobiusInteger)
        ensures
            r.machine_strand() == wrap_i64(self.machine_strand() + rhs.machine_strand()),
            r.exact_strand() == self.exact_strand() + rhs.exact_strand(),
    {
        proof {
            lemma_wrapping_add(self.machine, rhs.machine);
        }
        MobiusInteger {
            machine: self.machine.wrapping_add(rhs.machine),
            exact: bigint_add(&self.exact, &rhs.exact),
        }
    }
}

impl<'a> vstd::std_specs::ops::AddSpecImpl for &'a MobiusInteger {
    open spec fn obeys_add_spec() -> bool {
        false
    }

    open spec fn add_req(self, rhs: Self) -> bool {
        true
    }

    open spec fn add_spec(self, rhs: Self) -> MobiusInteger {
        arbitrary()
    }
}

impl<'a> Sub for &'a MobiusInteger {
    type Output = MobiusInteger;

    fn sub(self, rhs: Self) -> (r: MobiusInteger)
        ensures
            r.machine_strand() == wrap_i64(self.machine_strand() - rhs.machine_strand()),
            r.exact_strand() == self.exact_strand() - rhs.exact_strand(),
    {
        proof {
            lemma_wrapping_sub(self.machine, rhs.machine);
        }
        MobiusInteger {
            machine: self.machine.wrapping_sub(rhs.machine),
            exact: bigint_sub(&self.exact, &rhs.exact),
        }
    }
}

impl<'a> vstd::std_specs::ops::SubSpecImpl for &'a MobiusInteger {
    open spec fn obeys_sub_spec() -> bool {
        false
    }

    open spec fn sub_req(self, rhs: Self) -> bool {
        true
    }

    open spec fn sub_spec(self, rhs: Self) -> MobiusInteger {
        arbitrary()
    }
}

impl<'a> Mul for &'a MobiusInteger {
    type Output = MobiusInteger;

    fn mul(self, rhs: Self) -> (r: MobiusInteger)
        ensures
            r.machine_strand() == wrap_i64(self.machine_strand() * rhs.machine_strand()),
            r.exact_strand() == self.exact_strand() * rhs.exact_strand(),
    {
        proof {
            lemma_wrapping_mul(self.machine, rhs.machine);
        }
        MobiusInteger {
            machine: self.machine.wrapping_mul(rhs.machine),
            exact: bigint_mul(&self.exact, &rhs.exact),
        }
    }
}

impl<'a> vstd::std_specs::ops::MulSpecImpl for &'a MobiusInteger {
    open spec fn obeys_mul_spec() -> bool {
        false
    }

    open spec fn mul_req(self, rhs: Self) -> bool {
        true
    }

    open spec fn mul_spec(self, rhs: Self) -> MobiusInteger {
        arbitrary()
    }
}

} // verus!
