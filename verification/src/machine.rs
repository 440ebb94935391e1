//! The machine strand: what `i64` hardware computes, stated through `wrap_i64`.

use crate::arith::{abs, lemma_wrap_fits, lemma_wrap_shift, modulus_i64, trunc_div, trunc_rem, wrap_i64};
use vstd::arithmetic::div_mod::{lemma_div_nonincreasing, lemma_div_pos_is_pos, lemma_fundamental_div_mod, lemma_mod_bound};
use vstd::prelude::*;

verus! {

/// `i64::wrapping_add` yields the wrapped sum.
pub proof fn lemma_wrapping_add(a: i64, b: i64)
    ensures
        vstd::wrapping::i64_specs::wrapping_add(a, b) == wrap_i64(a + b),
{
    let s = a + b;
    if s > i64::MAX {
        lemma_wrap_shift(s - modulus_i64(), 1);
        lemma_wrap_fits(s - modulus_i64());
    } else if s < i64::MIN {
        lemma_wrap_shift(s + modulus_i64(), -1);
        lemma_wrap_fits(s + modulus_i64());
    } else {
        lemma_wrap_fits(s);
    }
}

/// `i64::wrapping_sub` yields the wrapped difference.
pub proof fn lemma_wrapping_sub(a: i64, b: i64)
    ensures
        vstd::wrapping::i64_specs::wrapping_sub(a, b) == wrap_i64(a - b),
{
    let s = a - b;
    if s > i64::MAX {
        lemma_wrap_shift(s - modulus_i64(), 1);
        lemma_wrap_fits(s - modulus_i64());
    } else if s < i64::MIN {
        lemma_wrap_shift(s + modulus_i64(), -1);
        lemma_wrap_fits(s + modulus_i64());
    } else {
        lemma_wrap_fits(s);
    }
}

/// `i64::wrapping_mul` yields the wrapped product.
pub proof fn lemma_wrapping_mul(a: i64, b: i64)
    ensures
        vstd::wrapping::i64_specs::wrapping_mul(a, b) == wrap_i64(a * b),
{
    let p = a * b;
    let m = modulus_i64();
    lemma_fundamental_div_mod(p, m);
    lemma_mod_bound(p, m);
    let q = p / m;
    let r = p % m;
    assert(p == r + q * m) by (nonlinear_arith)
        requires
            p == m * q + r,
    ;
    lemma_wrap_shift(r, q);
    if r <= i64::MAX {
        lemma_wrap_fits(r);
    } else {
        lemma_wrap_shift(r - m, 1);
        lemma_wrap_fits(r - m);
    }
}

/// The machine quotient: what `i64::wrapping_div` computes, the truncated
/// quotient wrapped to 64 bits (only `i64::MIN / -1` wraps, to `i64::MIN`).
pub(crate) fn wrapping_div_i64(a: i64, b: i64) -> (r: i64)
    requires
        b != 0,
    ensures
        r == wrap_i64(trunc_div(a as int, b as int)),
{
    proof {
        lemma_div_nonincreasing(abs(a as int), abs(b as int));
        lemma_div_pos_is_pos(abs(a as int), abs(b as int));
    }
    match a.checked_div(b) {
        Some(q) => {
            proof {
                lemma_wrap_fits(q as int);
            }
            q
        },
        None => {
            proof {
                lemma_wrap_shift(i64::MIN as int, 1);
                lemma_wrap_fits(i64::MIN as int);
            }
            a
        },
    }
}

/// The machine remainder: what `i64::wrapping_rem` computes, the truncated
/// remainder (which always fits; `i64::MIN % -1` is 0).
pub(crate) fn wrapping_rem_i64(a: i64, b: i64) -> (r: i64)
    requires
        b != 0,
    ensures
        r == trunc_rem(a as int, b as int),
{
    match a.checked_rem(b) {
        Some(v) => v,
        None => 0,
    }
}

} // verus!
