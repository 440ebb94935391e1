# mobius_integer

A dual-strand integer, verified with Verus. Each `MobiusInteger` carries a
machine strand (`i64`, wrapping arithmetic, as hardware computes) and an exact
strand (`ExactInt`, arbitrary precision, never overflows). Arithmetic
propagates both strands; comparison, collapse and narrowing use the exact
strand; `is_corrupted` reports when the two have diverged.

Layout:

- `src/arith.rs` — integer specifications: 64-bit wrapping, truncated division, and their lemmas.
- `src/machine.rs` — the machine strand: `i64` wrapping operations tied to `wrap_i64`.
- `src/exact.rs` — `ExactInt`, held as little-endian two's-complement bytes; its arithmetic,
  comparison, narrowing and decimal text are delegated to `num_bigint::BigInt` through trusted wrappers.
- `src/text.rs` — decimal text of integers.
- `src/mobius.rs` — `MobiusInteger`, `OverflowError`, constructors, narrowing, operators, conversions.
- `src/compare.rs` — equality and order (exact strand only).
- `src/laws.rs` — laws across operations (hardware image, corruption only on overflow, division).
- `app/lib.rs` — `BigInt` conversions and the `Display` / `Error` impls.
