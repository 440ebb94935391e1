//! Integer arithmetic as the two strands see it: two's-complement wrapping to
//! 64 bits for the machine strand, and division truncated towards zero for both.

use vstd::arithmetic::div_mod::{lemma_fundamental_div_mod, lemma_mod_multiples_vanish, lemma_small_mod};
use vstd::prelude::*;

verus! {

/// 2^64, the modulus of the machine strand.
pub open spec fn modulus_i64() -> int {
    0x1_0000_0000_0000_0000
}

/// 2^63, half the modulus.
pub open spec fn half_modulus_i64() -> int {
    0x8000_0000_0000_0000
}

/// Whether `x` is representable as an `i64`.
pub open spec fn fits_i64(x: int) -> bool {
    i64::MIN <= x <= i64::MAX
}

/// The `i64` that hardware holds for the true result `x`: the representative of
/// `x` modulo 2^64 in `[i64::MIN, i64::MAX]`.
pub open spec fn wrap_i64(x: int) -> int {
    (x + half_modulus_i64()) % modulus_i64() - half_modulus_i64()
}

/// The magnitude of `x`.
pub open spec fn abs(x: int) -> int {
    if x < 0 {
        -x
    } else {
        x
    }
}

/// Quotient of `a` by `b`, truncated towards zero (as Rust's `/` on integers).
pub open spec fn trunc_div(a: int, b: int) -> int {
    if (a < 0) == (b < 0) {
        abs(a) / abs(b)
    } else {
        -(abs(a) / abs(b))
    }
}

/// Remainder of `a` by `b` with the sign of `a` (as Rust's `%` on integers).
pub open spec fn trunc_rem(a: int, b: int) -> int {
    if a < 0 {
        -(abs(a) % abs(b))
    } else {
        abs(a) % abs(b)
    }
}

/// `wrap_i64` is the identity on the values an `i64` holds.
pub proof fn lemma_wrap_fits(x: int)
    requires
        fits_i64(x),
    ensures
        wrap_i64(x) == x,
{
    lemma_small_mod((x + half_modulus_i64()) as nat, modulus_i64() as nat);
}

/// Adding a multiple of 2^64 does not change the wrapped value.
pub proof fn lemma_wrap_shift(x: int, k: int)
    ensures
        wrap_i64(x + k * modulus_i64()) == wrap_i64(x),
{
    let m = modulus_i64();
    lemma_mod_multiples_vanish(k, x + half_modulus_i64(), m);
    assert(m * k + (x + half_modulus_i64()) == (x + k * m) + half_modulus_i64()) by (nonlinear_arith);
}

/// The wrapped value lies in the `i64` range.
pub proof fn lemma_wrap_range(x: int)
    ensures
        fits_i64(wrap_i64(x)),
{
}

/// Wrapping is a function of the residue modulo 2^64: `x` and `wrap_i64(x)`
/// wrap to the same value.
pub proof fn lemma_wrap_idempotent(x: int)
    ensures
        wrap_i64(wrap_i64(x)) == wrap_i64(x),
{
    lemma_wrap_range(x);
    lemma_wrap_fits(wrap_i64(x));
}

/// The wrapped value differs from `x` by a multiple `k` of 2^64.
proof fn lemma_wrap_as_shift(x: int) -> (k: int)
    ensures
        wrap_i64(x) == x - k * modulus_i64(),
{
    let m = modulus_i64();
    lemma_fundamental_div_mod(x + half_modulus_i64(), m);
    let k = (x + half_modulus_i64()) / m;
    assert(wrap_i64(x) == x - k * m) by (nonlinear_arith)
        requires
            x + half_modulus_i64() == m * k + (x + half_modulus_i64()) % m,
            wrap_i64(x) == (x + half_modulus_i64()) % m - half_modulus_i64(),
    ;
    k
}

/// Wrapping commutes with addition: only the residues of the operands matter.
pub proof fn lemma_wrap_add(x: int, y: int)
    ensures
        wrap_i64(wrap_i64(x) + wrap_i64(y)) == wrap_i64(x + y),
{
    let m = modulus_i64();
    let kx = lemma_wrap_as_shift(x);
    let ky = lemma_wrap_as_shift(y);
    assert(wrap_i64(x) + wrap_i64(y) == (x + y) + (-(kx + ky)) * m) by (nonlinear_arith)
        requires
            wrap_i64(x) == x - kx * m,
            wrap_i64(y) == y - ky * m,
    ;
    lemma_wrap_shift(x + y, -(kx + ky));
}

/// Wrapping commutes with negation.
pub proof fn lemma_wrap_neg(x: int)
    ensures
        wrap_i64(-wrap_i64(x)) == wrap_i64(-x),
{
    let m = modulus_i64();
    let kx = lemma_wrap_as_shift(x);
    assert(-wrap_i64(x) == -x + kx * m) by (nonlinear_arith)
        requires
            wrap_i64(x) == x - kx * m,
    ;
    lemma_wrap_shift(-x, kx);
}

/// Wrapping commutes with multiplication.
pub proof fn lemma_wrap_mul(x: int, y: int)
    ensures
        wrap_i64(wrap_i64(x) * wrap_i64(y)) == wrap_i64(x * y),
{
    let m = modulus_i64();
    let kx = lemma_wrap_as_shift(x);
    let ky = lemma_wrap_as_shift(y);
    let j = kx * y + ky * x - kx * ky * m;
    assert(wrap_i64(x) * wrap_i64(y) == x * y + (-j) * m) by (nonlinear_arith)
        requires
            wrap_i64(x) == x - kx * m,
            wrap_i64(y) == y - ky * m,
            j == kx * y + ky * x - kx * ky * m,
    ;
    lemma_wrap_shift(x * y, -j);
}

/// A value outside the `i64` range never wraps to itself.
pub proof fn lemma_wrap_moves_outside(x: int)
    requires
        !fits_i64(x),
    ensures
        wrap_i64(x) != x,
{
    lemma_wrap_range(x);
}

/// Truncated quotient and remainder recompose the dividend, and the remainder
/// is smaller in magnitude than the divisor.
pub proof fn lemma_trunc_div_rem(a: int, b: int)
    requires
        b != 0,
    ensures
        b * trunc_div(a, b) + trunc_rem(a, b) == a,
        abs(trunc_rem(a, b)) < abs(b),
        trunc_rem(a, b) == 0 || (trunc_rem(a, b) < 0) == (a < 0),
{
    lemma_fundamental_div_mod(abs(a), abs(b));
    let q = abs(a) / abs(b);
    let r = abs(a) % abs(b);
    assert(b * trunc_div(a, b) + trunc_rem(a, b) == a) by (nonlinear_arith)
        requires
            abs(a) == abs(b) * q + r,
            trunc_div(a, b) == (if (a < 0) == (b < 0) { q } else { -q }),
            trunc_rem(a, b) == (if a < 0 { -r } else { r }),
            abs(a) == (if a < 0 { -a } else { a }),
            abs(b) == (if b < 0 { -b } else { b }),
    ;
}

} // verus!
