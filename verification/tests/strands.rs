use mobius_integer::exact::ExactInt;
use mobius_integer::mobius::{Mi, MobiusInteger};
use num_bigint::BigInt;

fn big(e: &ExactInt) -> BigInt {
    BigInt::from_signed_bytes_le(&e.to_signed_bytes_le())
}

fn exact(b: &BigInt) -> ExactInt {
    ExactInt::from_signed_bytes_le(b.to_signed_bytes_le())
}

fn two_pow_64() -> BigInt {
    BigInt::from(u64::MAX) + BigInt::from(1)
}

#[test]
fn bytes_round_trip_denote_the_same_value() {
    for v in [0i64, 1, -1, 127, 128, -128, -129, 255, 256, i64::MAX, i64::MIN] {
        let e = exact(&BigInt::from(v));
        assert_eq!(big(&e), BigInt::from(v));
        assert_eq!(Mi::from_big(e).machine(), v);
    }
    // The empty byte string denotes zero.
    assert_eq!(Mi::from_big(ExactInt::from_signed_bytes_le(Vec::new())).machine(), 0);
    // Non-minimal encodings denote the same value.
    assert_eq!(Mi::from_big(ExactInt::from_signed_bytes_le(vec![5, 0, 0])).machine(), 5);
    assert_eq!(Mi::from_big(ExactInt::from_signed_bytes_le(vec![0xfb, 0xff])).machine(), -5);
}

#[test]
fn from_big_saturates_below() {
    let tiny = BigInt::from(i64::MIN) - BigInt::from(7);
    let n = Mi::from_big(exact(&tiny));
    assert_eq!(n.machine(), i64::MIN);
    assert!(n.is_corrupted());
    assert_eq!(big(&n.collapse()), tiny);
}

#[test]
fn from_exact_int_conversion_saturates() {
    let huge = BigInt::from(i64::MAX) * BigInt::from(3);
    let n: Mi = exact(&huge).into();
    assert_eq!(n.machine(), i64::MAX);
    assert!(n.is_corrupted());
    let small: Mi = exact(&BigInt::from(-12)).into();
    assert_eq!(small.machine(), -12);
    assert!(!small.is_corrupted());
}

#[test]
fn from_u32_beyond_i32() {
    let n: Mi = u32::MAX.into();
    assert_eq!(n.machine(), 4_294_967_295);
    assert_eq!(big(n.exact()), BigInt::from(4_294_967_295u32));
    let m: Mi = (-5i16).into();
    assert_eq!(m.machine(), -5);
}

#[test]
fn sub_wraps_below_min() {
    let r = Mi::new(i64::MIN) - Mi::new(1);
    assert_eq!(r.machine(), i64::MAX);
    assert!(r.is_corrupted());
    assert_eq!(big(&r.collapse()), BigInt::from(i64::MIN) - BigInt::from(1));
}

#[test]
fn mul_wraps_modulo_two_pow_64() {
    let r = Mi::new(i64::MAX) * Mi::new(i64::MAX);
    // (2^63 - 1)^2 = 2^126 - 2^64 + 1, which is 1 modulo 2^64.
    assert_eq!(r.machine(), 1);
    assert!(r.is_corrupted());
    assert_eq!(big(&r.collapse()), BigInt::from(i64::MAX) * BigInt::from(i64::MAX));
}

#[test]
fn division_truncates_towards_zero() {
    let q = Mi::new(-7) / Mi::new(2);
    assert_eq!(q.machine(), -3);
    assert_eq!(big(&q.collapse()), BigInt::from(-3));
    let q = Mi::new(7) / Mi::new(-2);
    assert_eq!(q.machine(), -3);
    assert_eq!(big(&q.collapse()), BigInt::from(-3));
    let r = Mi::new(-7) % Mi::new(2);
    assert_eq!(r.machine(), -1);
    assert_eq!(big(&r.collapse()), BigInt::from(-1));
    let r = Mi::new(7) % Mi::new(-2);
    assert_eq!(r.machine(), 1);
    assert_eq!(big(&r.collapse()), BigInt::from(1));
}

#[test]
fn min_divided_by_minus_one() {
    let q = Mi::new(i64::MIN) / Mi::new(-1);
    assert_eq!(q.machine(), i64::MIN);
    assert!(q.is_corrupted());
    assert_eq!(big(&q.collapse()), -BigInt::from(i64::MIN));
    let r = Mi::new(i64::MIN) % Mi::new(-1);
    assert_eq!(r.machine(), 0);
    assert!(!r.is_corrupted());
}

#[test]
fn divisor_whose_machine_strand_wrapped_to_zero() {
    // 2^64 wraps to 0 on the machine strand but is not zero on the exact strand.
    let divisor = Mi::from_big(exact(&two_pow_64())) - Mi::new(0);
    let wrapped = (Mi::new(i64::MAX) + Mi::new(i64::MAX)) + Mi::new(2);
    assert_eq!(wrapped.machine(), 0);
    assert_eq!(big(&wrapped.collapse()), two_pow_64());
    let q = Mi::new(5) / wrapped.clone();
    assert_eq!(q.machine(), 0);
    assert_eq!(big(&q.collapse()), BigInt::from(0));
    let r = Mi::new(5) % wrapped;
    assert_eq!(r.machine(), 0);
    assert!(r.is_corrupted());
    assert_eq!(big(&r.collapse()), BigInt::from(5));
    assert_eq!(divisor.machine(), i64::MAX);
}

#[test]
fn sub_and_mul_by_ref() {
    let a = Mi::new(i64::MIN);
    let b = Mi::new(3);
    let d = &a - &b;
    assert_eq!(d.machine(), i64::MAX - 2);
    assert_eq!(big(&d.collapse()), BigInt::from(i64::MIN) - BigInt::from(3));
    let p = &a * &b;
    assert_eq!(p.machine(), i64::MIN);
    assert_eq!(big(&p.collapse()), BigInt::from(i64::MIN) * BigInt::from(3));
    assert_eq!(a.machine(), i64::MIN);
}

#[test]
fn narrow_i64_out_of_range() {
    let n = Mi::new(i64::MAX) + Mi::new(1);
    let err = n.narrow_i64().unwrap_err();
    assert_eq!(err.target_bits, 64);
    assert_eq!(big(&err.exact_value), BigInt::from(i64::MAX) + BigInt::from(1));
    assert_eq!(Mi::new(-9).narrow_i64().unwrap(), -9);
}

#[test]
fn narrow_errors_carry_value_and_width() {
    let e16 = Mi::new(-32_769).narrow_i16().unwrap_err();
    assert_eq!(e16.target_bits, 16);
    assert_eq!(big(&e16.exact_value), BigInt::from(-32_769));
    assert_eq!(Mi::new(-32_768).narrow_i16().unwrap(), i16::MIN);
    let e32 = Mi::new(-2_147_483_649).narrow_i32().unwrap_err();
    assert_eq!(e32.target_bits, 32);
    assert_eq!(Mi::new(-2_147_483_648).narrow_i32().unwrap(), i32::MIN);
}

#[test]
fn overflow_error_message() {
    let err = Mi::new(32_768).narrow_i16().unwrap_err();
    assert_eq!(err.to_string(), "overflow: 32768 does not fit in i16");
    let err = (Mi::new(i64::MIN) - Mi::new(1)).narrow_i64().unwrap_err();
    assert_eq!(err.to_string(), "overflow: -9223372036854775809 does not fit in i64");
}

#[test]
fn display_texts() {
    assert_eq!(Mi::new(-42).to_string(), "-42");
    assert_eq!(Mi::new(0).to_string(), "0");
    let result = Mi::new(i64::MAX) + Mi::new(i64::MAX);
    assert_eq!(result.to_string(), "18446744073709551614 (machine: -2, CORRUPTED)");
    assert_eq!(result.collapse().to_string(), "18446744073709551614");
}

#[test]
fn comparisons_ignore_the_machine_strand() {
    let a = Mi::new(i64::MAX) + Mi::new(1);
    let b = Mi::from_big(exact(&(BigInt::from(i64::MAX) + BigInt::from(1))));
    // Different machine strands, same exact value.
    assert_ne!(a.machine(), b.machine());
    assert_eq!(a, b);
    assert_eq!(a.partial_cmp(&b), Some(std::cmp::Ordering::Equal));
    assert!(a <= b && a >= b);
    assert!(Mi::new(-3) < Mi::new(2));
    assert!(Mi::new(i64::MIN) - Mi::new(1) < Mi::new(i64::MIN));
}

#[test]
fn exact_int_equality_is_by_value() {
    assert_eq!(ExactInt::from_signed_bytes_le(vec![5, 0, 0]), ExactInt::from_signed_bytes_le(vec![5]));
    assert_ne!(ExactInt::from_signed_bytes_le(vec![5]), ExactInt::from_signed_bytes_le(vec![6]));
}

#[test]
fn ring_ops_keep_the_hardware_image() {
    // Corrupted operands whose machine strands are the wrapped exact values.
    let a = Mi::new(i64::MAX) + Mi::new(5);
    let b = Mi::new(i64::MIN) - Mi::new(9);
    let combos: Vec<MobiusInteger> = vec![&a + &b, &a - &b, &a * &b, -a.clone()];
    for r in combos {
        let m = BigInt::from(r.machine());
        let e = big(&r.collapse());
        let diff = e - m;
        assert_eq!(diff % two_pow_64(), BigInt::from(0));
    }
}

#[test]
fn no_corruption_without_overflow() {
    let a = Mi::new(3_000_000_000);
    let b = Mi::new(3_000_000_000);
    assert!(!(&a * &b).is_corrupted());
    assert!(!(&a + &b).is_corrupted());
    let big_a = Mi::new(4_000_000_000);
    let big_b = Mi::new(4_000_000_000 * 1000);
    assert!((&big_a * &big_b).is_corrupted());
}

#[test]
fn div_rem_recompose() {
    for (x, y) in [(17i64, 5i64), (-17, 5), (17, -5), (-17, -5), (i64::MIN, 7)] {
        let q = Mi::new(x) / Mi::new(y);
        let r = Mi::new(x) % Mi::new(y);
        let back = Mi::new(y) * q + r;
        assert_eq!(back.machine(), x);
        assert!(!back.is_corrupted());
    }
}

#[test]
fn negation_twice_is_identity() {
    let a = Mi::new(i64::MIN);
    let back = -(-a.clone());
    assert_eq!(back.machine(), i64::MIN);
    assert_eq!(back, a);
    assert!(!back.is_corrupted());
}

#[test]
fn sub_is_add_of_negation() {
    let a = Mi::new(i64::MIN);
    let b = Mi::new(i64::MIN);
    let s = &a - &b;
    let t = a + (-b);
    assert_eq!(s.machine(), t.machine());
    assert_eq!(s, t);
}

#[test]
fn uncorrupted_always_narrows_to_i64() {
    let n = Mi::new(-123_456_789_012);
    assert!(!n.is_corrupted());
    assert_eq!(n.narrow_i64().unwrap(), n.machine());
}
