//! Whole-number arithmetic shared by the controller's parts.

use vstd::prelude::*;

verus! {

/// `r` is the largest whole number whose square does not exceed `n`.
pub open spec fn is_floor_sqrt(n: int, r: int) -> bool {
    0 <= r && r * r <= n < (r + 1) * (r + 1)
}

/// A number has one floor square root only.
pub proof fn lemma_floor_sqrt_unique(n: int, a: int, b: int)
    requires
        is_floor_sqrt(n, a),
        is_floor_sqrt(n, b),
    ensures
        a == b,
{
    if a < b {
        assert((a + 1) * (a + 1) <= b * b) by (nonlinear_arith)
            requires
                0 <= a,
                a + 1 <= b,
        ;
    } else if b < a {
        assert((b + 1) * (b + 1) <= a * a) by (nonlinear_arith)
            requires
                0 <= b,
                b + 1 <= a,
        ;
    }
}

/// The square root of `n`, rounded down.
pub fn isqrt(n: u128) -> (r: u64)
    ensures
        is_floor_sqrt(n as int, r as int),
{
    let mut lo: u64 = 0;
    let mut hi: u64 = u64::MAX;
    assert((u64::MAX + 1) * (u64::MAX + 1) > u128::MAX) by (nonlinear_arith);
    while lo < hi
        invariant
            lo <= hi,
            lo * lo <= n,
            n < (hi + 1) * (hi + 1),
        decreases hi - lo,
    {
        let mid: u64 = lo + (hi - lo - 1) / 2 + 1;
        assert(mid * mid <= u128::MAX) by (nonlinear_arith)
            requires
                0 <= mid <= u64::MAX,
        ;
        let wide: u128 = mid as u128;
        if wide * wide <= n {
            lo = mid;
        } else {
            hi = mid - 1;
        }
    }
    lo
}

/// `r` is the smallest whole number whose square is at least `n`.
pub open spec fn is_ceil_sqrt(n: int, r: int) -> bool {
    &&& 0 <= r
    &&& n <= r * r
    &&& r > 0 ==> (r - 1) * (r - 1) < n
}

/// A number has one ceiling square root only.
pub proof fn lemma_ceil_sqrt_unique(n: int, a: int, b: int)
    requires
        is_ceil_sqrt(n, a),
        is_ceil_sqrt(n, b),
    ensures
        a == b,
{
    if a < b {
        assert(a * a <= (b - 1) * (b - 1)) by (nonlinear_arith)
            requires
                0 <= a,
                a <= b - 1,
        ;
    } else if b < a {
        assert(b * b <= (a - 1) * (a - 1)) by (nonlinear_arith)
            requires
                0 <= b,
                b <= a - 1,
        ;
    }
}

/// The square root of `n`, rounded up.
pub fn isqrt_up(n: u128) -> (r: u128)
    ensures
        is_ceil_sqrt(n as int, r as int),
        r <= u64::MAX + 1,
{
    let down: u128 = isqrt(n) as u128;
    assert(down * down <= n);
    if down * down == n {
        proof {
            if down > 0 {
                assert((down - 1) * (down - 1) < down * down) by (nonlinear_arith)
                    requires
                        down > 0,
                ;
            }
        }
        down
    } else {
        down + 1
    }
}

/// `x` held between `lo` and `hi`: `lo` where `x` falls below, `hi` where it
/// rises above.
pub open spec fn clamped(x: int, lo: int, hi: int) -> int {
    if x < lo {
        lo
    } else if x > hi {
        hi
    } else {
        x
    }
}

/// The quotient of `a` by a positive `b`, rounded toward zero.
pub open spec fn div_toward_zero(a: int, b: int) -> int {
    if a >= 0 {
        a / b
    } else {
        -((-a) / b)
    }
}

/// The quotient of `a` by a positive `b`, rounded to the nearest whole
/// number, and away from zero where `a` lies halfway between two.
pub open spec fn div_nearest(a: int, b: int) -> int {
    let q = div_toward_zero(a, b);
    let r = a - q * b;
    if 2 * r >= b {
        q + 1
    } else if 2 * r <= -b {
        q - 1
    } else {
        q
    }
}

/// A quotient rounded to the nearest is off by half the divisor at most, and
/// has the sign of what was divided or is zero.
pub proof fn lemma_div_nearest_is_near(a: int, b: int)
    requires
        0 < b,
    ensures
        -b <= 2 * (div_nearest(a, b) * b - a) <= b,
        a >= 0 ==> div_nearest(a, b) >= 0,
        a <= 0 ==> div_nearest(a, b) <= 0,
        2 * a >= b ==> div_nearest(a, b) >= 1,
        2 * a <= -b ==> div_nearest(a, b) <= -1,
{
    let q = div_toward_zero(a, b);
    let r = a - q * b;
    if a >= 0 {
        assert(q * b <= a < q * b + b && q >= 0) by (nonlinear_arith)
            requires
                q == a / b,
                0 <= a,
                0 < b,
        ;
    } else {
        let p = (-a) / b;
        assert(p * b <= -a < p * b + b && p >= 0) by (nonlinear_arith)
            requires
                p == (-a) / b,
                0 <= -a,
                0 < b,
        ;
        assert(q * b == -(p * b)) by (nonlinear_arith)
            requires
                q == -p,
        ;
    }
    assert((q + 1) * b == q * b + b && (q - 1) * b == q * b - b) by (nonlinear_arith);
    if 2 * a >= b && a >= 0 {
        if q == 0 {
            assert(q * b == 0) by (nonlinear_arith)
                requires
                    q == 0,
            ;
        }
    }
    if 2 * a <= -b && a <= 0 {
        if q == 0 {
            assert(q * b == 0) by (nonlinear_arith)
                requires
                    q == 0,
            ;
        }
    }
}

/// The quotient of `a` by `b`, rounded to the nearest.
pub fn divide_nearest(a: i128, b: i128) -> (q: i128)
    requires
        0 < b <= 0x4000_0000_0000_0000,
        -0x4000_0000_0000_0000_0000_0000_0000_0000 <= a
            <= 0x4000_0000_0000_0000_0000_0000_0000_0000,
    ensures
        q == div_nearest(a as int, b as int),
{
    let down: i128 = a / b;
    assert(down == div_toward_zero(a as int, b as int));
    proof {
        let x = a as int;
        let y = b as int;
        if x >= 0 {
            assert(0 <= (x / y) * y <= x && x - (x / y) * y < y && x / y <= x) by (nonlinear_arith)
                requires
                    0 <= x,
                    0 < y,
            ;
        } else {
            let p = (-x) / y;
            assert(0 <= p * y <= -x && -x - p * y < y && p <= -x) by (nonlinear_arith)
                requires
                    p == (-x) / y,
                    0 <= -x,
                    0 < y,
            ;
            assert(down * y == -(p * y)) by (nonlinear_arith)
                requires
                    down == -p,
            ;
        }
    }
    let rest: i128 = a - down * b;
    if 2 * rest >= b {
        down + 1
    } else if 2 * rest <= -b {
        down - 1
    } else {
        down
    }
}

/// A quotient rounded toward zero is no further from zero than what was
/// divided, has its sign, and is no larger than `bound` where the share
/// `num / den` of `bound` is at most one.
pub proof fn lemma_scaled_share_is_bounded(diff: int, num: int, den: int)
    requires
        0 <= num <= den,
        0 < den,
    ensures
        diff >= 0 ==> 0 <= div_toward_zero(diff * num, den) <= diff,
        diff <= 0 ==> diff <= div_toward_zero(diff * num, den) <= 0,
{
    if diff >= 0 {
        assert(0 <= diff * num <= diff * den) by (nonlinear_arith)
            requires
                0 <= diff,
                0 <= num <= den,
        ;
        assert(0 <= (diff * num) / den <= diff) by (nonlinear_arith)
            requires
                0 <= diff * num <= diff * den,
                0 < den,
        ;
    } else {
        let pos = -diff;
        assert(0 <= pos * num <= pos * den) by (nonlinear_arith)
            requires
                0 <= pos,
                0 <= num <= den,
        ;
        assert(-(diff * num) == pos * num) by (nonlinear_arith)
            requires
                pos == -diff,
        ;
        assert(0 <= (pos * num) / den <= pos) by (nonlinear_arith)
            requires
                0 <= pos * num <= pos * den,
                0 < den,
        ;
        if diff * num == 0 {
            assert(pos * num == 0);
        }
    }
}

/// The `i64` nearest to `x`.
pub open spec fn clamp_i64(x: int) -> i64 {
    if x < i64::MIN {
        i64::MIN
    } else if x > i64::MAX {
        i64::MAX
    } else {
        x as i64
    }
}

/// The `i64` nearest to `x`.
pub fn clamp_to_i64(x: i128) -> (r: i64)
    ensures
        r == clamp_i64(x as int),
{
    if x < i64::MIN as i128 {
        i64::MIN
    } else if x > i64::MAX as i128 {
        i64::MAX
    } else {
        x as i64
    }
}

} // verus!
