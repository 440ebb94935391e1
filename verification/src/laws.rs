//! Laws of the library: what holds across operations and for every value.

use crate::arith::{
    abs, fits_i64, lemma_trunc_div_rem, lemma_wrap_add, lemma_wrap_fits, lemma_wrap_idempotent,
    lemma_wrap_moves_outside, lemma_wrap_mul, lemma_wrap_neg, trunc_div, trunc_rem, wrap_i64,
};
use crate::mobius::{display_text, saturate_i64, MobiusInteger};
use crate::text::decimal_text;
use vstd::prelude::*;

verus! {

/// The machine strand stays the hardware image of the exact strand under `+`,
/// `-`, `*` and unary `-`: when both operands' machine strands are their exact
/// values wrapped to 64 bits, so are the results' (the strands of `a + b` are
/// `wrap_i64(a.m + b.m)` and `a.e + b.e`, and so on).
pub proof fn law_ring_ops_keep_hardware_image(a: MobiusInteger, b: MobiusInteger)
    requires
        a.hardware_image(),
        b.hardware_image(),
    ensures
        wrap_i64(a.machine_strand() + b.machine_strand()) == wrap_i64(
            a.exact_strand() + b.exact_strand(),
        ),
        wrap_i64(a.machine_strand() - b.machine_strand()) == wrap_i64(
            a.exact_strand() - b.exact_strand(),
        ),
        wrap_i64(a.machine_strand() * b.machine_strand()) == wrap_i64(
            a.exact_strand() * b.exact_strand(),
        ),
        wrap_i64(-a.machine_strand()) == wrap_i64(-a.exact_strand()),
{
    let (ae, be) = (a.exact_strand(), b.exact_strand());
    lemma_wrap_add(ae, be);
    lemma_wrap_mul(ae, be);
    lemma_wrap_neg(ae);
    lemma_wrap_neg(be);
    lemma_wrap_add(ae, -be);
    assert(wrap_i64(-b.machine_strand()) == wrap_i64(-be));
    lemma_wrap_add(a.machine_strand(), -b.machine_strand());
    a.lemma_machine_fits();
    lemma_wrap_fits(a.machine_strand());
}

/// No corruption without overflow: for operands whose strands agree, the
/// result of `+`, `-`, `*` or unary `-` is corrupted exactly when its exact
/// value lies outside the `i64` range.
pub proof fn law_corruption_iff_overflow(a: MobiusInteger, b: MobiusInteger)
    requires
        !a.corrupted(),
        !b.corrupted(),
    ensures
        (wrap_i64(a.machine_strand() + b.machine_strand()) != a.exact_strand() + b.exact_strand())
            <==> !fits_i64(a.exact_strand() + b.exact_strand()),
        (wrap_i64(a.machine_strand() - b.machine_strand()) != a.exact_strand() - b.exact_strand())
            <==> !fits_i64(a.exact_strand() - b.exact_strand()),
        (wrap_i64(a.machine_strand() * b.machine_strand()) != a.exact_strand() * b.exact_strand())
            <==> !fits_i64(a.exact_strand() * b.exact_strand()),
        (wrap_i64(-a.machine_strand()) != -a.exact_strand()) <==> !fits_i64(-a.exact_strand()),
{
    let (ae, be) = (a.exact_strand(), b.exact_strand());
    let xs = seq![ae + be, ae - be, ae * be, -ae];
    assert forall|i: int| 0 <= i < 4 implies (wrap_i64(#[trigger] xs[i]) != xs[i]) <==> !fits_i64(
        xs[i],
    ) by {
        if fits_i64(xs[i]) {
            lemma_wrap_fits(xs[i]);
        } else {
            lemma_wrap_moves_outside(xs[i]);
        }
    }
    assert(xs[0] == ae + be && xs[1] == ae - be && xs[2] == ae * be && xs[3] == -ae);
}

/// Division and remainder of operands whose strands agree give results whose
/// machine strands are the hardware image of their exact strands: the machine
/// quotient is the exact quotient wrapped (only `i64::MIN / -1` wraps), and
/// the machine remainder is the exact remainder.
pub proof fn law_div_rem_keep_hardware_image(a: MobiusInteger, b: MobiusInteger)
    requires
        !a.corrupted(),
        !b.corrupted(),
        b.exact_strand() != 0,
    ensures
        b.machine_strand() != 0,
        wrap_i64(trunc_div(a.machine_strand(), b.machine_strand())) == wrap_i64(
            trunc_div(a.exact_strand(), b.exact_strand()),
        ),
        trunc_rem(a.machine_strand(), b.machine_strand()) == trunc_rem(
            a.exact_strand(),
            b.exact_strand(),
        ),
{
}

/// Quotient and remainder recompose the dividend. On the exact strand,
/// `b * (a / b) + a % b == a` with `|a % b| < |b|`; on the machine strand the
/// same identity holds modulo 2^64, whatever the strands hold.
pub proof fn law_div_rem_recompose(a: MobiusInteger, b: MobiusInteger)
    requires
        b.exact_strand() != 0,
    ensures
        b.exact_strand() * trunc_div(a.exact_strand(), b.exact_strand()) + trunc_rem(
            a.exact_strand(),
            b.exact_strand(),
        ) == a.exact_strand(),
        abs(trunc_rem(a.exact_strand(), b.exact_strand())) < abs(b.exact_strand()),
        b.machine_strand() != 0 ==> wrap_i64(
            b.machine_strand() * wrap_i64(trunc_div(a.machine_strand(), b.machine_strand()))
                + trunc_rem(a.machine_strand(), b.machine_strand()),
        ) == a.machine_strand(),
{
    lemma_trunc_div_rem(a.exact_strand(), b.exact_strand());
    let (am, bm) = (a.machine_strand(), b.machine_strand());
    if bm != 0 {
        lemma_trunc_div_rem(am, bm);
        let q = trunc_div(am, bm);
        let r = trunc_rem(am, bm);
        b.lemma_machine_fits();
        a.lemma_machine_fits();
        lemma_wrap_fits(bm);
        lemma_wrap_fits(am);
        lemma_wrap_fits(r);
        // wrap(bm * wrap(q) + r) == wrap(bm * q + r) == wrap(am) == am
        lemma_wrap_mul(bm, q);
        lemma_wrap_mul(bm, wrap_i64(q));
        lemma_wrap_idempotent(q);
        lemma_wrap_add(bm * wrap_i64(q), r);
        lemma_wrap_add(bm * q, r);
    }
}

/// Negating twice gives back both strands.
pub proof fn law_neg_involutive(a: MobiusInteger)
    ensures
        wrap_i64(-wrap_i64(-a.machine_strand())) == a.machine_strand(),
        -(-a.exact_strand()) == a.exact_strand(),
{
    lemma_wrap_neg(-a.machine_strand());
    a.lemma_machine_fits();
    lemma_wrap_fits(a.machine_strand());
}

/// Subtracting is adding the negation, on both strands.
pub proof fn law_sub_is_add_neg(a: MobiusInteger, b: MobiusInteger)
    ensures
        wrap_i64(a.machine_strand() - b.machine_strand()) == wrap_i64(
            a.machine_strand() + wrap_i64(-b.machine_strand()),
        ),
        a.exact_strand() - b.exact_strand() == a.exact_strand() + (-b.exact_strand()),
{
    let am = a.machine_strand();
    a.lemma_machine_fits();
    lemma_wrap_fits(am);
    lemma_wrap_add(am, -b.machine_strand());
}

/// `from_big` corrupts exactly the values outside the `i64` range: the
/// saturated machine strand equals the value if and only if it fits.
pub proof fn law_saturation_corrupts_iff_out_of_range(v: int)
    ensures
        (saturate_i64(v) != v) <==> !fits_i64(v),
{
}

/// A value whose strands agree always narrows to `i64`, to its machine strand.
pub proof fn law_uncorrupted_fits_i64(a: MobiusInteger)
    requires
        !a.corrupted(),
    ensures
        fits_i64(a.exact_strand()),
        a.exact_strand() == a.machine_strand(),
{
    a.lemma_machine_fits();
}

/// The displayed text of a value is its exact value, and carries the machine
/// value and the `CORRUPTED` mark exactly when the two strands differ, in
/// either direction.
pub proof fn law_display_marks_corruption(a: MobiusInteger)
    ensures
        a.corrupted() ==> display_text(a.machine_strand(), a.exact_strand()) == decimal_text(
            a.exact_strand(),
        ) + " (machine: "@ + decimal_text(a.machine_strand()) + ", CORRUPTED)"@,
        !a.corrupted() ==> display_text(a.machine_strand(), a.exact_strand()) == decimal_text(
            a.exact_strand(),
        ),
{
}

} // verus!
