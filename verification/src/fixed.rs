//! 48.16 fixed-point scalar arithmetic.
//!
//! A scalar is an `i64` holding `value * 65536`.  Every operation clamps
//! its result into `[-FX_MAX, FX_MAX]`, so arithmetic is total on that
//! range and each function's result is pinned exactly by its contract.

use vstd::prelude::*;

verus! {

/// Raw representation of 1.0.
pub const FX_ONE: i64 = 65536;

/// Largest admitted raw magnitude (about 32768.0).
pub const FX_MAX: i64 = 2147483647;

/// Raw representation of pi.
pub const FX_PI: i64 = 205887;

/// Raw representation of 2*pi, kept at exactly twice `FX_PI` so that
/// angle reduction is consistent.
pub const FX_TAU: i64 = 411774;

/// Raw representation of pi/2.
pub const FX_HALF_PI: i64 = 102944;

/// A scalar in the admitted fixed-point range.
pub open spec fn fx_ok(a: i64) -> bool {
    -FX_MAX <= a <= FX_MAX
}

/// Clamp a mathematical integer into the admitted range.
pub open spec fn fx_clamp(x: int) -> int {
    if x > FX_MAX as int {
        FX_MAX as int
    } else if x < -(FX_MAX as int) {
        -(FX_MAX as int)
    } else {
        x
    }
}

/// Division truncated toward zero (the divisor is positive).
pub open spec fn div_trunc(p: int, d: int) -> int {
    if p >= 0 {
        p / d
    } else {
        -((-p) / d)
    }
}

/// Saturating fixed-point addition.
pub open spec fn fx_add_s(a: int, b: int) -> int {
    fx_clamp(a + b)
}

/// Saturating fixed-point subtraction.
pub open spec fn fx_sub_s(a: int, b: int) -> int {
    fx_clamp(a - b)
}

/// Saturating fixed-point multiplication: `a * b / 65536`, truncated
/// toward zero.
pub open spec fn fx_mul_s(a: int, b: int) -> int {
    fx_clamp(div_trunc(a * b, FX_ONE as int))
}

/// Saturating fixed-point division: `a * 65536 / b`, truncated toward
/// zero; zero when the divisor is zero.
pub open spec fn fx_div_s(a: int, b: int) -> int {
    if b == 0 {
        0
    } else if (a < 0) != (b < 0) {
        fx_clamp(-((vstd::math::abs(a) as int * FX_ONE as int) / vstd::math::abs(b) as int))
    } else {
        fx_clamp((vstd::math::abs(a) as int * FX_ONE as int) / vstd::math::abs(b) as int)
    }
}

/// The step from `x0` to `x1` is one saturating addition of a
/// variance-scaled offset whose raw draw lay in
/// `[-halfrange, halfrange)`.
pub open spec fn perturbed_by(x0: int, x1: int, halfrange: int, v: int) -> bool {
    exists|d: int| -halfrange <= d < halfrange && x1 == fx_add_s(x0, #[trigger] fx_mul_s(d, v))
}

proof fn lemma_abs_mul(a: int, b: int)
    by (nonlinear_arith)
    ensures
        vstd::math::abs(a) * vstd::math::abs(b) == vstd::math::abs(a * b),
        ((a < 0) != (b < 0)) ==> a * b <= 0,
        ((a < 0) == (b < 0)) ==> a * b >= 0,
{
}

/// Saturating addition.
pub fn fx_add(a: i64, b: i64) -> (r: i64)
    requires
        fx_ok(a),
        fx_ok(b),
    ensures
        r == fx_add_s(a as int, b as int),
        fx_ok(r),
{
    let s = a + b;
    if s > FX_MAX {
        FX_MAX
    } else if s < -FX_MAX {
        -FX_MAX
    } else {
        s
    }
}

/// Saturating subtraction.
pub fn fx_sub(a: i64, b: i64) -> (r: i64)
    requires
        fx_ok(a),
        fx_ok(b),
    ensures
        r == fx_sub_s(a as int, b as int),
        fx_ok(r),
{
    let s = a - b;
    if s > FX_MAX {
        FX_MAX
    } else if s < -FX_MAX {
        -FX_MAX
    } else {
        s
    }
}

/// Saturating fixed-point multiplication.
pub fn fx_mul(a: i64, b: i64) -> (r: i64)
    requires
        fx_ok(a),
        fx_ok(b),
    ensures
        r == fx_mul_s(a as int, b as int),
        fx_ok(r),
{
    let neg = (a < 0) != (b < 0);
    let ua: u64 = if a < 0 { (-a) as u64 } else { a as u64 };
    let ub: u64 = if b < 0 { (-b) as u64 } else { b as u64 };
    proof {
        assert(ua == vstd::math::abs(a as int));
        assert(ub == vstd::math::abs(b as int));
        lemma_abs_mul(a as int, b as int);
        assert(ua as int * ub as int <= FX_MAX as int * FX_MAX as int) by (nonlinear_arith)
            requires
                0 <= ua as int <= FX_MAX as int,
                0 <= ub as int <= FX_MAX as int,
        ;
    }
    let p: u64 = ua * ub;
    let q: u64 = p / 65536;
    let q: u64 = if q > FX_MAX as u64 {
        FX_MAX as u64
    } else {
        q
    };
    let r: i64 = if neg {
        -(q as i64)
    } else {
        q as i64
    };
    proof {
        let ab = a as int * b as int;
        assert(p == vstd::math::abs(ab));
        if neg {
            assert(ab <= 0);
            assert(div_trunc(ab, FX_ONE as int) == -(p as int / 65536));
        } else {
            assert(ab >= 0);
            assert(p == ab);
            assert(div_trunc(ab, FX_ONE as int) == p as int / 65536);
        }
    }
    r
}

/// Saturating fixed-point division; zero when the divisor is zero.
pub fn fx_div(a: i64, b: i64) -> (r: i64)
    requires
        fx_ok(a),
        fx_ok(b),
    ensures
        r == fx_div_s(a as int, b as int),
        fx_ok(r),
{
    if b == 0 {
        return 0;
    }
    let neg = (a < 0) != (b < 0);
    let ua: u64 = if a < 0 { (-a) as u64 } else { a as u64 };
    let ub: u64 = if b < 0 { (-b) as u64 } else { b as u64 };
    let p: u64 = ua * 65536;
    let q: u64 = p / ub;
    let q: u64 = if q > FX_MAX as u64 {
        FX_MAX as u64
    } else {
        q
    };
    let r: i64 = if neg {
        -(q as i64)
    } else {
        q as i64
    };
    r
}

/// Floor of the square root of `n` (zero for negative `n`).
pub open spec fn sqrt_floor(n: int) -> int
    decreases n,
{
    if n <= 0 {
        0
    } else {
        let r = sqrt_floor(n - 1);
        if (r + 1) * (r + 1) <= n {
            r + 1
        } else {
            r
        }
    }
}

/// `sqrt_floor` is the unique nonnegative root bound.
pub proof fn lemma_sqrt_floor(n: int)
    requires
        n >= 0,
    ensures
        sqrt_floor(n) >= 0,
        sqrt_floor(n) * sqrt_floor(n) <= n,
        n < (sqrt_floor(n) + 1) * (sqrt_floor(n) + 1),
    decreases n,
{
    if n == 0 {
    } else {
        lemma_sqrt_floor(n - 1);
        let r = sqrt_floor(n - 1);
        if (r + 1) * (r + 1) <= n {
            assert(n <= (r + 1) * (r + 1));
            assert((r + 1) * (r + 1) < (r + 2) * (r + 2)) by (nonlinear_arith)
                requires
                    r >= 0,
            ;
        }
    }
}

/// Any value meeting the root bounds is `sqrt_floor`.
pub proof fn lemma_sqrt_unique(n: int, r: int)
    requires
        n >= 0,
        r >= 0,
        r * r <= n,
        n < (r + 1) * (r + 1),
    ensures
        r == sqrt_floor(n),
{
    lemma_sqrt_floor(n);
    let s = sqrt_floor(n);
    assert(r == s) by (nonlinear_arith)
        requires
            r >= 0,
            s >= 0,
            r * r <= n,
            n < (r + 1) * (r + 1),
            s * s <= n,
            n < (s + 1) * (s + 1),
    ;
}

/// Floor square root by bisection.
pub fn isqrt(n: u64) -> (r: u64)
    ensures
        r == sqrt_floor(n as int),
{
    if n == 0 {
        proof {
            lemma_sqrt_unique(0, 0);
        }
        return 0;
    }
    let mut lo: u64 = 0;
    let mut hi: u64 = 4294967296;
    while lo + 1 < hi
        invariant
            0 <= lo < hi <= 4294967296,
            (lo as int) * (lo as int) <= n as int,
            (n as int) < (hi as int) * (hi as int),
        decreases hi - lo,
    {
        let mid: u64 = lo + (hi - lo) / 2;
        assert(lo < mid < hi);
        proof {
            assert((mid as int) * (mid as int) <= 4294967295int * 4294967295int)
                by (nonlinear_arith)
                requires
                    0 <= mid as int <= 4294967295int,
            ;
        }
        if mid * mid <= n {
            lo = mid;
        } else {
            hi = mid;
        }
    }
    proof {
        lemma_sqrt_unique(n as int, lo as int);
    }
    lo
}

/// Square root on `[0, 1]`: `sqrt_floor(x * 65536)`.
pub fn fx_sqrt01(x: i64) -> (r: i64)
    requires
        0 <= x <= FX_ONE,
    ensures
        r == sqrt_floor(x as int * FX_ONE as int),
        0 <= r <= FX_ONE,
{
    let s = isqrt((x as u64) * 65536);
    proof {
        let m = x as int * FX_ONE as int;
        lemma_sqrt_floor(m);
        assert(sqrt_floor(m) <= FX_ONE) by (nonlinear_arith)
            requires
                sqrt_floor(m) >= 0,
                sqrt_floor(m) * sqrt_floor(m) <= m,
                m <= 65536 * 65536,
        ;
    }
    s as i64
}

/// Reduce an angle into `[0, 2*pi)`.
pub open spec fn reduce_tau(x: int) -> int {
    if x >= 0 {
        x % (FX_TAU as int)
    } else {
        let k = (-x) % (FX_TAU as int);
        if k == 0 {
            0
        } else {
            FX_TAU as int - k
        }
    }
}

/// Rational sine approximation on `[0, pi]`, exact at `0` and `pi`.
pub open spec fn sin_half(m: int) -> int {
    let t = m * (FX_PI as int - m);
    (16 * t * 65536) / (5 * FX_PI as int * FX_PI as int - 4 * t)
}

/// Sine of a fixed-point angle in radians.
pub open spec fn fx_sin_s(x: int) -> int {
    let m = reduce_tau(x);
    if m <= FX_PI as int {
        sin_half(m)
    } else {
        -sin_half(m - FX_PI as int)
    }
}

/// Cosine as the sine of the reduced angle shifted by a quarter turn.
pub open spec fn fx_cos_s(x: int) -> int {
    fx_sin_s(reduce_tau(x) + FX_HALF_PI as int)
}

fn reduce_tau_exec(x: i64) -> (m: u64)
    requires
        fx_ok(x),
    ensures
        m == reduce_tau(x as int),
        m < FX_TAU as u64,
{
    if x >= 0 {
        (x as u64) % (FX_TAU as u64)
    } else {
        let k = ((-x) as u64) % (FX_TAU as u64);
        if k == 0 {
            0
        } else {
            FX_TAU as u64 - k
        }
    }
}

fn sin_half_exec(m: u64) -> (r: i64)
    requires
        m <= FX_PI as u64,
    ensures
        r == sin_half(m as int),
        0 <= r <= FX_ONE,
{
    proof {
        assert(4 * (m as int * (FX_PI as int - m as int)) <= FX_PI as int * FX_PI as int)
            by (nonlinear_arith)
            requires
                0 <= m as int <= FX_PI as int,
        ;
    }
    let t: u64 = m * (FX_PI as u64 - m);
    let num: u64 = 16 * t * 65536;
    let den: u64 = 5 * (FX_PI as u64) * (FX_PI as u64) - 4 * t;
    let q: u64 = num / den;
    proof {
        vstd::arithmetic::div_mod::lemma_div_is_ordered(
            num as int,
            den as int * 65536,
            den as int,
        );
        vstd::arithmetic::div_mod::lemma_div_multiples_vanish(65536, den as int);
    }
    q as i64
}

/// Sine of a fixed-point angle in radians, in `[-1, 1]`.
pub fn fx_sin(x: i64) -> (r: i64)
    requires
        fx_ok(x),
    ensures
        r == fx_sin_s(x as int),
        -FX_ONE <= r <= FX_ONE,
{
    let m = reduce_tau_exec(x);
    if m <= FX_PI as u64 {
        sin_half_exec(m)
    } else {
        -sin_half_exec(m - FX_PI as u64)
    }
}

/// Cosine of a fixed-point angle in radians, in `[-1, 1]`.
pub fn fx_cos(x: i64) -> (r: i64)
    requires
        fx_ok(x),
    ensures
        r == fx_cos_s(x as int),
        -FX_ONE <= r <= FX_ONE,
{
    let m = reduce_tau_exec(x);
    fx_sin((m as i64) + FX_HALF_PI)
}

/// Repeated fixed-point multiplication: `x^k` for a nonnegative whole
/// exponent.
pub open spec fn fx_ipow_s(x: int, k: int) -> int
    decreases k,
{
    if k <= 0 {
        FX_ONE as int
    } else {
        fx_mul_s(x, fx_ipow_s(x, k - 1))
    }
}

/// One bit-peeling state step of the fractional power: at each of 16
/// steps the current value is square-rooted and multiplied in when the
/// next bit of the fractional exponent is set.
pub open spec fn fx_fpow_s(acc: int, cur: int, rem: int, i: int) -> int
    decreases 16 - i,
{
    if i >= 16 {
        acc
    } else {
        let cur2 = sqrt_floor(cur * FX_ONE as int);
        let acc2 = if rem / 32768 == 1 {
            fx_mul_s(acc, cur2)
        } else {
            acc
        };
        fx_fpow_s(acc2, cur2, (rem % 32768) * 2, i + 1)
    }
}

/// `x^p` for `x` in `[0, 1]`: whole part by repeated multiplication,
/// fractional part by 16 bit-peeling square-root steps; `1` for `p <= 0`.
pub open spec fn fx_pow_s(x: int, p: int) -> int {
    if p <= 0 {
        FX_ONE as int
    } else {
        fx_mul_s(fx_ipow_s(x, p / FX_ONE as int), fx_fpow_s(FX_ONE as int, x, p % FX_ONE as int, 0))
    }
}

/// Multiplying values of `[0, 1]` stays in `[0, 1]` and shrinks.
pub proof fn lemma_fx_mul_unit(a: int, b: int)
    requires
        0 <= a <= FX_ONE as int,
        0 <= b <= FX_ONE as int,
    ensures
        0 <= fx_mul_s(a, b) <= a,
        fx_mul_s(a, b) <= b,
{
    assert(a * b <= a * 65536) by (nonlinear_arith)
        requires
            0 <= a,
            b <= 65536,
    ;
    assert(a * b <= b * 65536) by (nonlinear_arith)
        requires
            0 <= b,
            a <= 65536,
    ;
    assert(a * b >= 0) by (nonlinear_arith)
        requires
            0 <= a,
            0 <= b,
    ;
    vstd::arithmetic::div_mod::lemma_div_is_ordered(a * b, a * 65536, 65536);
    vstd::arithmetic::div_mod::lemma_div_is_ordered(a * b, b * 65536, 65536);
    vstd::arithmetic::div_mod::lemma_div_multiples_vanish(a, 65536);
    vstd::arithmetic::div_mod::lemma_div_multiples_vanish(b, 65536);
    vstd::arithmetic::div_mod::lemma_div_pos_is_pos(a * b, 65536);
}

/// `x^p` for `x` in `[0, 1]` and a fixed-point exponent `p`.
pub fn fx_pow(x: i64, p: i64) -> (r: i64)
    requires
        0 <= x <= FX_ONE,
        fx_ok(p),
    ensures
        r == fx_pow_s(x as int, p as int),
        0 <= r <= FX_ONE,
{
    if p <= 0 {
        return FX_ONE;
    }
    let pu: u64 = p as u64;
    let k: u64 = pu / 65536;
    let mut whole: i64 = FX_ONE;
    let mut j: u64 = 0;
    while j < k
        invariant
            0 <= j <= k,
            0 <= x <= FX_ONE,
            0 <= whole <= FX_ONE,
            whole == fx_ipow_s(x as int, j as int),
        decreases k - j,
    {
        proof {
            lemma_fx_mul_unit(x as int, whole as int);
        }
        whole = fx_mul(x, whole);
        j = j + 1;
    }
    let mut acc: i64 = FX_ONE;
    let mut cur: i64 = x;
    let mut rem: u64 = pu % 65536;
    let mut i: u64 = 0;
    while i < 16
        invariant
            0 <= i <= 16,
            0 <= acc <= FX_ONE,
            0 <= cur <= FX_ONE,
            rem < 65536,
            fx_fpow_s(acc as int, cur as int, rem as int, i as int) == fx_fpow_s(
                FX_ONE as int,
                x as int,
                (p as int) % (FX_ONE as int),
                0,
            ),
        decreases 16 - i,
    {
        let ghost acc0 = acc as int;
        let ghost cur0 = cur as int;
        let ghost rem0 = rem as int;
        cur = fx_sqrt01(cur);
        if rem / 32768 == 1 {
            proof {
                lemma_fx_mul_unit(acc as int, cur as int);
            }
            acc = fx_mul(acc, cur);
        }
        rem = (rem % 32768) * 2;
        i = i + 1;
        proof {
            assert(fx_fpow_s(acc0, cur0, rem0, i as int - 1) == fx_fpow_s(
                acc as int,
                cur as int,
                rem as int,
                i as int,
            ));
        }
    }
    proof {
        lemma_fx_mul_unit(whole as int, acc as int);
    }
    fx_mul(whole, acc)
}

/// Truncating division by a small positive integer.
pub fn fx_divn(a: i64, d: u64) -> (r: i64)
    requires
        fx_ok(a),
        1 <= d <= 1000000,
    ensures
        r == div_trunc(a as int, d as int),
        fx_ok(r),
{
    let neg = a < 0;
    let ua: u64 = if a < 0 { (-a) as u64 } else { a as u64 };
    let q: u64 = ua / d;
    proof {
        vstd::arithmetic::div_mod::lemma_div_is_ordered(q as int, ua as int, 1);
        vstd::arithmetic::div_mod::lemma_div_is_ordered_by_denominator(ua as int, 1, d as int);
    }
    if neg {
        -(q as i64)
    } else {
        q as i64
    }
}

} // verus!
