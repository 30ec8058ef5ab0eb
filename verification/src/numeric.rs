//! Integer semantics of the program's fixed-point arithmetic: Rust's
//! truncating signed division and the wrapping `as` conversions, stated over
//! mathematical integers and implemented without any lossy cast.
use vstd::prelude::*;
use vstd::arithmetic::div_mod::*;

verus! {

/// 2^64
pub open spec fn pow64() -> int {
    0x1_0000_0000_0000_0000int
}

/// 2^127
pub open spec fn pow127() -> int {
    0x8000_0000_0000_0000_0000_0000_0000_0000int
}

/// 2^128
pub open spec fn pow128() -> int {
    0x1_0000_0000_0000_0000_0000_0000_0000_0000int
}

pub open spec fn fits_i64(x: int) -> bool {
    i64::MIN <= x <= i64::MAX
}

pub open spec fn fits_i128(x: int) -> bool {
    i128::MIN <= x <= i128::MAX
}

pub open spec fn fits_u128(x: int) -> bool {
    0 <= x <= u128::MAX
}

/// Rust's `/` on signed integers: the quotient rounded toward zero.
pub open spec fn tdiv(a: int, b: int) -> int {
    if a >= 0 {
        if b > 0 { a / b } else { -(a / (-b)) }
    } else {
        if b > 0 { -((-a) / b) } else { (-a) / (-b) }
    }
}

/// Whether Rust's `a / b` on `i128` operands completes without a panic.
pub open spec fn i128_div_defined(a: int, b: int) -> bool {
    b != 0 && !(a == i128::MIN && b == -1)
}

/// The value of `x as i128` for an unsigned 128-bit `x` (two's complement reinterpretation).
pub open spec fn wrap_i128(x: int) -> int {
    if x < pow127() { x } else { x - pow128() }
}

/// The value of `x as u128` for a signed 128-bit `x`.
pub open spec fn wrap_u128(x: int) -> int {
    if x >= 0 { x } else { x + pow128() }
}

/// The value of `x as i64` for an unsigned 64-bit `x`.
pub open spec fn wrap_i64(x: int) -> int {
    if x < 0x8000_0000_0000_0000int { x } else { x - pow64() }
}

/// The value of `x as u64` for an unsigned 128-bit `x`: its low 64 bits.
pub open spec fn trunc_u64(x: int) -> int {
    x % pow64()
}

/// `a / b` on `i128`, with Rust's rounding toward zero.
pub fn i128_div(a: i128, b: i128) -> (q: i128)
    requires
        i128_div_defined(a as int, b as int),
    ensures
        q == tdiv(a as int, b as int),
{
    proof {
        let m: int = if a >= 0 { a as int } else { -(a as int) };
        let d: int = if b >= 0 { b as int } else { -(b as int) };
        lemma_div_is_ordered_by_denominator(m, 1, d);
        lemma_div_basics(m);
        lemma_div_pos_is_pos(m, d);
        if d >= 2 {
            lemma_div_is_ordered_by_denominator(m, 2, d);
        }
    }
    match a.checked_div(b) {
        Some(q) => q,
        None => {
            proof {
                let m: int = if a >= 0 { a as int } else { -(a as int) };
                let d: int = if b >= 0 { b as int } else { -(b as int) };
                assert(m / d <= m);
                assert(false);
            }
            0
        },
    }
}

/// `x as i128` for `x: u128`.
pub fn u128_as_i128(x: u128) -> (r: i128)
    ensures
        r == wrap_i128(x as int),
{
    if x <= 0x7fff_ffff_ffff_ffff_ffff_ffff_ffff_ffffu128 {
        x as i128
    } else {
        ((x - 0x8000_0000_0000_0000_0000_0000_0000_0000u128) as i128) + i128::MIN
    }
}

/// `x as u128` for `x: i128`.
pub fn i128_as_u128(x: i128) -> (r: u128)
    ensures
        r == wrap_u128(x as int),
{
    if x >= 0 {
        x as u128
    } else {
        ((x - i128::MIN) as u128) + 0x8000_0000_0000_0000_0000_0000_0000_0000u128
    }
}

/// `x as i64` for `x: u64`.
pub fn u64_as_i64(x: u64) -> (r: i64)
    ensures
        r == wrap_i64(x as int),
{
    if x <= 0x7fff_ffff_ffff_ffffu64 {
        x as i64
    } else {
        ((x - 0x8000_0000_0000_0000u64) as i64) + i64::MIN
    }
}

/// `x as u64` for `x: u128`.
pub fn u128_as_u64(x: u128) -> (r: u64)
    ensures
        r == trunc_u64(x as int),
{
    (x % 0x1_0000_0000_0000_0000u128) as u64
}

} // verus!
