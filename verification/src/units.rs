//! Arithmetic on layout units and on factors in thousandths.

use vstd::prelude::*;

verus! {

/// Layout units in one pixel.
pub const UNITS_PER_PIXEL: i64 = 1000;

/// The factor one, in thousandths.
pub const UNIT_FACTOR: i64 = 1000;

/// Largest magnitude of a length that `scale` accepts.
pub const SCALE_LENGTH_LIMIT: i64 = 0x400_0000_0000;

/// Largest magnitude of a factor that `scale` accepts.
pub const SCALE_FACTOR_LIMIT: i64 = 0x10_0000;

/// `v` confined to `lo..=hi`.
pub open spec fn clamped(v: int, lo: int, hi: int) -> int {
    if v < lo {
        lo
    } else if v > hi {
        hi
    } else {
        v
    }
}

/// `v` multiplied by a factor in thousandths, rounded down.
pub open spec fn scaled(v: int, permille: int) -> int {
    (v * permille) / 1000
}

/// The stored length nearest to `v`.
pub open spec fn stored(v: int) -> i32 {
    clamped(v, i32::MIN as int, i32::MAX as int) as i32
}

/// A pixel count as a length.
pub open spec fn pixels(px: int) -> int {
    px * 1000
}

/// The whole pixels of a length, rounded toward zero.
pub open spec fn whole_pixels(v: int) -> int {
    if v >= 0 {
        v / 1000
    } else {
        -((-v) / 1000)
    }
}

/// The larger of two integers.
pub open spec fn larger(a: int, b: int) -> int {
    if a >= b {
        a
    } else {
        b
    }
}

/// The smaller of two integers.
pub open spec fn smaller(a: int, b: int) -> int {
    if a <= b {
        a
    } else {
        b
    }
}

/// The scale of the interface for a window of the given height in pixels:
/// the height over 1080, in thousandths, confined to 0.7 to 2.
pub open spec fn dpi_scale_of(window_height: int) -> int {
    clamped((window_height * 1000) / 1080, 700, 2000)
}

/// The size of a window, in pixels.
#[derive(Clone, Copy, Debug, PartialEq, Eq, Structural)]
pub struct WindowSize {
    pub width: u32,
    pub height: u32,
}

/// Quotient rounded down, for a positive divisor.
pub fn floor_div(n: i64, d: i64) -> (q: i64)
    requires
        d > 0,
    ensures
        q == n as int / d as int,
{
    if n >= 0 {
        n / d
    } else {
        let q: i64 = n / d;
        let r: i64 = n % d;
        proof {
            assert(q * d + r == n && -d < r <= 0) by (nonlinear_arith)
                requires
                    n < 0,
                    d > 0,
                    q == -((-n) / (d as int)),
                    r == -((-n) % (d as int)),
            ;
        }
        if r == 0 {
            proof {
                assert(n as int / d as int == q) by (nonlinear_arith)
                    requires
                        q * d == n,
                        d > 0,
                ;
            }
            q
        } else {
            proof {
                assert(n as int / d as int == q - 1) by (nonlinear_arith)
                    requires
                        q * d + r == n,
                        -d < r < 0,
                        d > 0,
                ;
                assert(q > i64::MIN) by (nonlinear_arith)
                    requires
                        q * d + r == n,
                        -d < r < 0,
                        d > 0,
                        n >= i64::MIN,
                        q >= i64::MIN,
                ;
            }
            q - 1
        }
    }
}

/// A length scaled by a factor of at most two stays between nothing and
/// twice itself.
pub proof fn lemma_scaled_within(v: int, permille: int)
    requires
        0 <= permille <= 2000,
    ensures
        v >= 0 ==> 0 <= scaled(v, permille) <= 2 * v,
        v <= 0 ==> 2 * v <= scaled(v, permille) <= 0,
{
    if v >= 0 {
        assert(0 <= v * permille <= 2000 * v) by (nonlinear_arith)
            requires
                v >= 0,
                0 <= permille <= 2000,
        ;
    } else {
        assert(2000 * v <= v * permille <= 0) by (nonlinear_arith)
            requires
                v <= 0,
                0 <= permille <= 2000,
        ;
    }
}

/// `v` times a factor in thousandths, rounded down.
pub fn scale(v: i64, permille: i64) -> (r: i64)
    requires
        -SCALE_LENGTH_LIMIT <= v <= SCALE_LENGTH_LIMIT,
        -SCALE_FACTOR_LIMIT <= permille <= SCALE_FACTOR_LIMIT,
    ensures
        r == scaled(v as int, permille as int),
        0 <= permille <= 2000 && v >= 0 ==> 0 <= r <= 2 * v,
        0 <= permille <= 2000 && v <= 0 ==> 2 * v <= r <= 0,
        0 <= permille <= 1000 && v >= 0 ==> r <= v,
{
    proof {
        if 0 <= permille <= 2000 {
            lemma_scaled_within(v as int, permille as int);
        }
        if 0 <= permille <= 1000 && v >= 0 {
            assert(v * permille <= 1000 * v) by (nonlinear_arith)
                requires
                    v >= 0,
                    0 <= permille <= 1000,
            ;
        }
        assert(-0x4000_0000_0000_0000 <= v * permille <= 0x4000_0000_0000_0000)
            by (nonlinear_arith)
            requires
                -0x400_0000_0000 <= v <= 0x400_0000_0000,
                -0x10_0000 <= permille <= 0x10_0000,
        ;
    }
    floor_div(v * permille, 1000)
}

/// The stored length nearest to `v`.
pub fn store(v: i64) -> (r: i32)
    ensures
        r == stored(v as int),
{
    if v < -2147483648 {
        -2147483648
    } else if v > 2147483647 {
        2147483647
    } else {
        v as i32
    }
}

/// A pixel count as a length.
pub fn from_pixels(px: u32) -> (r: i64)
    ensures
        r == pixels(px as int),
        0 <= r <= SCALE_LENGTH_LIMIT,
{
    px as i64 * 1000
}

/// The whole pixels of a length, rounded toward zero.
pub fn to_whole_pixels(v: i64) -> (r: i64)
    ensures
        r == whole_pixels(v as int),
{
    v / 1000
}

/// `v` confined to `low..=high`.
pub fn confine(v: i64, low: i64, high: i64) -> (out: i64)
    requires
        low <= high,
    ensures
        out == clamped(v as int, low as int, high as int),
        low <= out <= high,
{
    if v < low {
        low
    } else if v > high {
        high
    } else {
        v
    }
}

/// The scale of the interface for a window of the given height in pixels.
pub fn dpi_scale(window_height: u32) -> (s: i64)
    ensures
        s == dpi_scale_of(window_height as int),
        700 <= s <= 2000,
{
    let raw: i64 = window_height as i64 * 1000 / 1080;
    if raw < 700 {
        700
    } else if raw > 2000 {
        2000
    } else {
        raw
    }
}

/// Half of a length, rounded down.
pub fn half(v: i64) -> (r: i64)
    ensures
        r == v as int / 2,
{
    floor_div(v, 2)
}

/// The share of a container that a fraction in thousandths takes.
pub fn share_of_pixels(px: u32, permille: u16) -> (r: i64)
    ensures
        r == scaled(pixels(px as int), permille as int),
        r == px as int * permille as int,
        0 <= r <= 0x1_0000_0000_0000,
{
    proof {
        assert(0 <= px as int * permille as int <= 0x1_0000_0000_0000) by (nonlinear_arith)
            requires
                0 <= px <= 0xffff_ffff,
                0 <= permille <= 0xffff,
        ;
        assert((px as int * 1000 * permille as int) / 1000 == px as int * permille as int)
            by (nonlinear_arith);
    }
    px as i64 * permille as i64
}

} // verus!
