//! Fixed-point arithmetic of the arena: scaling, floor division and toroidal wrap.
use vstd::arithmetic::div_mod::{lemma_fundamental_div_mod, lemma_fundamental_div_mod_converse};
use vstd::prelude::*;

verus! {

/// One arena unit in fixed point; the arena spans `[-UNIT, UNIT)` on each axis.
pub const UNIT: i64 = 1_000_000;

/// The width of the arena on one axis, `2 * UNIT`.
pub const SPAN: i64 = 2_000_000;

/// A bound on the magnitude of every fixed-point product computed by `scale`.
pub const SCALE_LIMIT: i128 = 0x1000_0000_0000_0000_0000_0000_0000;

/// The largest magnitude accepted by `wrap`: a position plus a product of `scale`
/// stays below it.
pub const WRAP_LIMIT: i128 = 0x2000_0000_0000_0000_0000_0000_0000;

/// A coordinate lies inside the arena.
pub open spec fn in_arena(v: int) -> bool {
    -UNIT <= v < UNIT
}

/// The toroidal wrap `((v + 1) mod 2) - 1`, in fixed point.
pub open spec fn wrap_spec(v: int) -> int {
    (v + UNIT) % (SPAN as int) - UNIT
}

/// `x * m / UNIT` rounded down: a fixed-point product.
pub open spec fn scaled(x: int, m: int) -> int {
    (x * m) / (UNIT as int)
}

/// `v` clamped into the range of `i64`.
pub open spec fn clamp_i64(v: int) -> int {
    if v < i64::MIN {
        i64::MIN as int
    } else if v > i64::MAX {
        i64::MAX as int
    } else {
        v
    }
}

/// `x / d` rounded down, for a positive divisor.
pub fn floor_div(x: i128, d: i128) -> (r: i128)
    requires
        d > 0,
    ensures
        r == (x as int) / (d as int),
{
    if x >= 0 {
        x / d
    } else {
        let n: i128 = (-(x + 1)) / d;
        let rem: i128 = (-(x + 1)) % d;
        proof {
            let q = -(n as int) - 1;
            let s = (d - 1 - rem) as int;
            lemma_fundamental_div_mod(-(x + 1), d as int);
            assert(-(x + 1) == d * n + rem);
            assert(d * n == n * d) by (nonlinear_arith);
            assert(x == q * d + s) by (nonlinear_arith)
                requires
                    -(x + 1) == n * d + rem,
                    q == -(n as int) - 1,
                    s == d - 1 - rem,
            ;
            lemma_fundamental_div_mod_converse(x as int, d as int, q, s);
        }
        -n - 1
    }
}

/// `x mod d` in `[0, d)`, for a positive divisor.
pub fn floor_mod(x: i128, d: i128) -> (r: i128)
    requires
        d > 0,
    ensures
        r == (x as int) % (d as int),
        0 <= r < d,
{
    if x >= 0 {
        x % d
    } else {
        let n: i128 = (-(x + 1)) / d;
        let rem: i128 = (-(x + 1)) % d;
        proof {
            let q = -(n as int) - 1;
            let s = (d - 1 - rem) as int;
            lemma_fundamental_div_mod(-(x + 1), d as int);
            assert(-(x + 1) == d * n + rem);
            assert(d * n == n * d) by (nonlinear_arith);
            assert(x == q * d + s) by (nonlinear_arith)
                requires
                    -(x + 1) == n * d + rem,
                    q == -(n as int) - 1,
                    s == d - 1 - rem,
            ;
            lemma_fundamental_div_mod_converse(x as int, d as int, q, s);
        }
        d - 1 - rem
    }
}

/// Wraps a coordinate onto the torus: the result lies in the arena and differs from `v`
/// by a whole number of arena widths.
pub fn wrap(v: i128) -> (r: i64)
    requires
        -WRAP_LIMIT <= v <= WRAP_LIMIT,
    ensures
        r == wrap_spec(v as int),
        in_arena(r as int),
{
    let m = floor_mod(v + UNIT as i128, SPAN as i128);
    (m - UNIT as i128) as i64
}

/// The fixed-point product `x * m / UNIT`, rounded down.
pub fn scale(x: i64, m: u64) -> (r: i128)
    ensures
        r == scaled(x as int, m as int),
        -SCALE_LIMIT <= r <= SCALE_LIMIT,
{
    assert(i128::MIN <= x as int * m as int <= i128::MAX) by (nonlinear_arith)
        requires
            i64::MIN <= x <= i64::MAX,
            0 <= m <= u64::MAX,
    ;
    let p: i128 = x as i128 * m as i128;
    floor_div(p, UNIT as i128)
}

/// Adds two integers, clamping the sum into the range of `i64`.
pub fn clamped_add(a: i64, b: i128) -> (r: i64)
    requires
        -SCALE_LIMIT <= b <= SCALE_LIMIT,
    ensures
        r == clamp_i64(a + b),
{
    let s: i128 = a as i128 + b;
    if s < i64::MIN as i128 {
        i64::MIN
    } else if s > i64::MAX as i128 {
        i64::MAX
    } else {
        s as i64
    }
}

/// `r` is the square root of `n` rounded down.
pub open spec fn is_floor_sqrt(r: int, n: int) -> bool {
    r * r <= n < (r + 1) * (r + 1)
}

/// The square root of `n`, rounded down.
pub fn isqrt(n: u128) -> (r: u64)
    requires
        n <= 0x8000_0000_0000_0000_0000_0000_0000_0000,
    ensures
        is_floor_sqrt(r as int, n as int),
{
    let mut lo: u128 = 0;
    let mut hi: u128 = 0x1_0000_0000_0000_0000;
    assert(n < hi * hi) by (nonlinear_arith)
        requires
            hi == 0x1_0000_0000_0000_0000u128,
            n <= 0x8000_0000_0000_0000_0000_0000_0000_0000,
    ;
    while hi - lo > 1
        invariant
            lo < hi <= 0x1_0000_0000_0000_0000,
            lo * lo <= n,
            n < hi * hi,
        decreases hi - lo,
    {
        let mid = lo + (hi - lo) / 2;
        assert(mid * mid < 0x1_0000_0000_0000_0000_0000_0000_0000_0000) by (nonlinear_arith)
            requires
                mid < 0x1_0000_0000_0000_0000,
        ;
        if mid * mid <= n {
            lo = mid;
        } else {
            hi = mid;
        }
    }
    assert(hi == lo + 1);
    lo as u64
}

} // verus!
