//! Equality and order. Both consult the exact strand only.

use crate::exact::{bigint_eq, bigint_order, order_of, ExactInt};
use crate::mobius::MobiusInteger;
use core::cmp::Ordering;
use vstd::prelude::*;
use vstd::std_specs::cmp::{PartialEqSpec, PartialOrdSpec};

verus! {

impl PartialEq for ExactInt {
    fn eq(&self, other: &Self) -> (r: bool)
        ensures
            r <==> self@ == other@,
    {
        bigint_eq(self, other)
    }
}

impl vstd::std_specs::cmp::PartialEqSpecImpl for ExactInt {
    open spec fn obeys_eq_spec() -> bool {
        true
    }

    open spec fn eq_spec(&self, other: &Self) -> bool {
        self@ == other@
    }
}

impl Eq for ExactInt {
}

impl PartialEq for MobiusInteger {
    fn eq(&self, other: &Self) -> (r: bool)
        ensures
            r <==> self.exact_strand() == other.exact_strand(),
    {
        self.exact() == other.exact()
    }
}

impl vstd::std_specs::cmp::PartialEqSpecImpl for MobiusInteger {
    open spec fn obeys_eq_spec() -> bool {
        true
    }

    open spec fn eq_spec(&self, other: &Self) -> bool {
        self.exact_strand() == other.exact_strand()
    }
}

impl Eq for MobiusInteger {
}

impl PartialOrd for MobiusInteger {
    fn partial_cmp(&self, other: &Self) -> (r: Option<Ordering>)
        ensures
            r == Some(Ordering::Less) <==> self.exact_strand() < other.exact_strand(),
            r == Some(Ordering::Equal) <==> self.exact_strand() == other.exact_strand(),
            r == Some(Ordering::Greater) <==> self.exact_strand() > other.exact_strand(),
    {
        Some(bigint_order(self.exact(), other.exact()))
    }
}

impl vstd::std_specs::cmp::PartialOrdSpecImpl for MobiusInteger {
    open spec fn obeys_partial_cmp_spec() -> bool {
        true
    }

    open spec fn partial_cmp_spec(&self, other: &Self) -> Option<Ordering> {
        Some(order_of(self.exact_strand(), other.exact_strand()))
    }
}

/// Comparison never consults the machine strand: two pairs of values with the
/// same exact strands compare alike, whatever their machine strands hold.
pub proof fn law_comparison_ignores_machine(
    a: MobiusInteger,
    b: MobiusInteger,
    c: MobiusInteger,
    d: MobiusInteger,
)
    requires
        a.exact_strand() == c.exact_strand(),
        b.exact_strand() == d.exact_strand(),
    ensures
        PartialEqSpec::eq_spec(&a, &b) == PartialEqSpec::eq_spec(&c, &d),
        PartialOrdSpec::partial_cmp_spec(&a, &b) == PartialOrdSpec::partial_cmp_spec(&c, &d),
{
}

/// Equality and order agree, and the order is total and antisymmetric:
/// `a == b` exactly when `a.partial_cmp(b)` is `Equal`, `a < b` exactly when
/// `b > a`, and every pair is comparable.
pub proof fn law_order_is_total(a: MobiusInteger, b: MobiusInteger)
    ensures
        PartialEqSpec::eq_spec(&a, &b) <==> PartialOrdSpec::partial_cmp_spec(&a, &b) == Some(Ordering::Equal),
        PartialOrdSpec::partial_cmp_spec(&a, &b) == Some(Ordering::Less) <==> PartialOrdSpec::partial_cmp_spec(&b, &a) == Some(
            Ordering::Greater,
        ),
        PartialOrdSpec::partial_cmp_spec(&a, &b) is Some,
{
}

/// Equality of exact integers is equality of the integers they denote.
pub proof fn law_exact_equality_is_value_equality(x: ExactInt, y: ExactInt)
    ensures
        PartialEqSpec::eq_spec(&x, &y) <==> x@ == y@,
{
}

/// `==` on `MobiusInteger` holds exactly when the exact values are equal,
/// whatever the machine strands hold.
pub proof fn law_equality_is_exact_equality(a: MobiusInteger, b: MobiusInteger)
    ensures
        PartialEqSpec::eq_spec(&a, &b) <==> a.exact_strand() == b.exact_strand(),
{
}

/// The order of `MobiusInteger` values is the integer order of their exact
/// strands: `a < b`, `a == b` and `a > b` hold exactly when the exact values
/// are so ordered.
pub proof fn law_order_is_integer_order(a: MobiusInteger, b: MobiusInteger)
    ensures
        PartialOrdSpec::partial_cmp_spec(&a, &b) == Some(Ordering::Less) <==> a.exact_strand()
            < b.exact_strand(),
        PartialOrdSpec::partial_cmp_spec(&a, &b) == Some(Ordering::Equal) <==> a.exact_strand()
            == b.exact_strand(),
        PartialOrdSpec::partial_cmp_spec(&a, &b) == Some(Ordering::Greater) <==> a.exact_strand()
            > b.exact_strand(),
{
}

/// The order is transitive.
pub proof fn law_order_is_transitive(a: MobiusInteger, b: MobiusInteger, c: MobiusInteger)
    requires
        PartialOrdSpec::partial_cmp_spec(&a, &b) == Some(Ordering::Less),
        PartialOrdSpec::partial_cmp_spec(&b, &c) == Some(Ordering::Less),
    ensures
        PartialOrdSpec::partial_cmp_spec(&a, &c) == Some(Ordering::Less),
{
}

} // verus!
