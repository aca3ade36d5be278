//! Saturating fixed-point scalar arithmetic.
//!
//! A scalar is an `i64` holding sixteen fractional bits: the value `v` stands
//! for the real number `v / 65536`. Every operation is total: results outside
//! the representable range saturate to `i64::MAX` or `i64::MIN`, and division
//! by zero saturates toward the sign of the dividend, so the saturation bounds
//! play the role floating-point infinities play elsewhere. Each executable
//! operation is pinned to a specification function that states its result
//! exactly.

use vstd::prelude::*;

verus! {

/// The fixed-point representation of 1.
pub const FX_ONE: i64 = 65536;

/// The fixed-point representation of 1/2.
pub const FX_HALF: i64 = 32768;

/// Saturates a mathematical integer into the `i64` range.
pub open spec fn fx_clip(x: int) -> i64 {
    if x > i64::MAX as int {
        i64::MAX
    } else if x < i64::MIN as int {
        i64::MIN
    } else {
        x as i64
    }
}

/// Magnitude of a scalar, as a mathematical integer.
pub open spec fn fx_abs_spec(a: i64) -> int {
    if a >= 0 {
        a as int
    } else {
        -(a as int)
    }
}

pub open spec fn fx_add_spec(a: i64, b: i64) -> i64 {
    fx_clip(a + b)
}

pub open spec fn fx_sub_spec(a: i64, b: i64) -> i64 {
    fx_clip(a - b)
}

pub open spec fn fx_neg_spec(a: i64) -> i64 {
    fx_clip(-(a as int))
}

/// Fixed-point product: the scaled product of the magnitudes, truncated
/// toward zero, with the usual sign rule.
pub open spec fn fx_mul_spec(a: i64, b: i64) -> i64 {
    let m = (fx_abs_spec(a) * fx_abs_spec(b)) / 65536;
    if (a < 0) != (b < 0) {
        fx_clip(-m)
    } else {
        fx_clip(m)
    }
}

/// Fixed-point quotient, truncated toward zero. A zero divisor saturates
/// toward the sign of the dividend, standing in for an infinity.
pub open spec fn fx_div_spec(a: i64, b: i64) -> i64 {
    if b == 0 {
        if a > 0 {
            i64::MAX
        } else if a < 0 {
            i64::MIN
        } else {
            0
        }
    } else {
        let m = (fx_abs_spec(a) * 65536) / fx_abs_spec(b);
        if (a < 0) != (b < 0) {
            fx_clip(-m)
        } else {
            fx_clip(m)
        }
    }
}

/// Quotient of a scalar by a small plain integer, truncated toward zero;
/// a non-positive divisor yields zero.
pub open spec fn fx_divi_spec(a: i64, k: i64) -> i64 {
    if k <= 0 {
        0
    } else {
        let m = fx_abs_spec(a) / (k as int);
        if a < 0 {
            fx_clip(-m)
        } else {
            fx_clip(m)
        }
    }
}

pub fn fx_add(a: i64, b: i64) -> (r: i64)
    ensures
        r == fx_add_spec(a, b),
{
    let s: i128 = a as i128 + b as i128;
    if s > i64::MAX as i128 {
        i64::MAX
    } else if s < i64::MIN as i128 {
        i64::MIN
    } else {
        s as i64
    }
}

pub fn fx_sub(a: i64, b: i64) -> (r: i64)
    ensures
        r == fx_sub_spec(a, b),
{
    let s: i128 = a as i128 - b as i128;
    if s > i64::MAX as i128 {
        i64::MAX
    } else if s < i64::MIN as i128 {
        i64::MIN
    } else {
        s as i64
    }
}

pub fn fx_neg(a: i64) -> (r: i64)
    ensures
        r == fx_neg_spec(a),
{
    if a == i64::MIN {
        i64::MAX
    } else {
        -a
    }
}

/// Magnitude of a scalar as an unsigned machine word.
pub fn fx_mag(a: i64) -> (r: u64)
    ensures
        r as int == fx_abs_spec(a),
{
    if a >= 0 {
        a as u64
    } else if a == i64::MIN {
        9223372036854775808u64
    } else {
        (-a) as u64
    }
}

/// Saturating absolute value.
pub fn fx_abs(a: i64) -> (r: i64)
    ensures
        r == fx_clip(fx_abs_spec(a)),
{
    if a == i64::MIN {
        i64::MAX
    } else if a < 0 {
        -a
    } else {
        a
    }
}

/// Reassembles a signed saturated scalar from a magnitude and a sign.
fn fx_from_mag(q: u128, neg: bool) -> (r: i64)
    ensures
        neg ==> r == fx_clip(-(q as int)),
        !neg ==> r == fx_clip(q as int),
{
    if neg {
        if q >= 9223372036854775808u128 {
            i64::MIN
        } else {
            -(q as i64)
        }
    } else {
        if q > i64::MAX as u128 {
            i64::MAX
        } else {
            q as i64
        }
    }
}

pub fn fx_mul(a: i64, b: i64) -> (r: i64)
    ensures
        r == fx_mul_spec(a, b),
{
    let neg: bool = (a < 0) != (b < 0);
    let ma: u128 = fx_mag(a) as u128;
    let mb: u128 = fx_mag(b) as u128;
    assert(ma * mb <= 0x40000000000000000000000000000000u128) by (nonlinear_arith)
        requires
            ma <= 0x8000000000000000u128,
            mb <= 0x8000000000000000u128,
    {
    }
    let p: u128 = ma * mb;
    let q: u128 = p / 65536;
    fx_from_mag(q, neg)
}

pub fn fx_div(a: i64, b: i64) -> (r: i64)
    ensures
        r == fx_div_spec(a, b),
{
    if b == 0 {
        if a > 0 {
            i64::MAX
        } else if a < 0 {
            i64::MIN
        } else {
            0
        }
    } else {
        let neg: bool = (a < 0) != (b < 0);
        let ma: u128 = fx_mag(a) as u128;
        let mb: u128 = fx_mag(b) as u128;
        let p: u128 = ma * 65536;
        let q: u128 = p / mb;
        fx_from_mag(q, neg)
    }
}

pub fn fx_divi(a: i64, k: i64) -> (r: i64)
    ensures
        r == fx_divi_spec(a, k),
{
    if k <= 0 {
        0
    } else {
        let ma: u128 = fx_mag(a) as u128;
        let q: u128 = ma / (k as u128);
        fx_from_mag(q, a < 0)
    }
}

pub open spec fn fx_min_spec(a: i64, b: i64) -> i64 {
    if a < b {
        a
    } else {
        b
    }
}

pub open spec fn fx_max_spec(a: i64, b: i64) -> i64 {
    if a > b {
        a
    } else {
        b
    }
}

pub fn fx_min(a: i64, b: i64) -> (r: i64)
    ensures
        r == fx_min_spec(a, b),
{
    if a < b {
        a
    } else {
        b
    }
}

pub fn fx_max(a: i64, b: i64) -> (r: i64)
    ensures
        r == fx_max_spec(a, b),
{
    if a > b {
        a
    } else {
        b
    }
}

/// `r` is the integer square root of `n`: the greatest `r` with `r * r <= n`.
pub open spec fn is_isqrt(r: int, n: int) -> bool {
    0 <= r && r * r <= n && (r + 1) * (r + 1) > n
}

/// The integer square root of a non-negative integer.
pub open spec fn isqrt_spec(n: int) -> int {
    choose|r: int| #[trigger] is_isqrt(r, n)
}

pub proof fn lemma_isqrt_exists(n: int)
    requires
        n >= 0,
    ensures
        exists|r: int| #[trigger] is_isqrt(r, n),
    decreases n,
{
    if n == 0 {
        assert(is_isqrt(0, 0));
    } else {
        lemma_isqrt_exists(n - 1);
        let r = choose|r: int| #[trigger] is_isqrt(r, n - 1);
        if (r + 1) * (r + 1) <= n {
            assert(is_isqrt(r + 1, n)) by (nonlinear_arith)
                requires
                    0 <= r,
                    r * r <= n - 1,
                    (r + 1) * (r + 1) > n - 1,
                    (r + 1) * (r + 1) <= n,
            {
            }
        } else {
            assert(is_isqrt(r, n));
        }
    }
}

pub proof fn lemma_isqrt_unique(r1: int, r2: int, n: int)
    requires
        is_isqrt(r1, n),
        is_isqrt(r2, n),
    ensures
        r1 == r2,
{
    assert(r1 == r2) by (nonlinear_arith)
        requires
            0 <= r1,
            r1 * r1 <= n,
            (r1 + 1) * (r1 + 1) > n,
            0 <= r2,
            r2 * r2 <= n,
            (r2 + 1) * (r2 + 1) > n,
    {
    }
}

/// Integer square root by binary search on the answer.
pub fn isqrt_u128(n: u128) -> (r: u64)
    ensures
        is_isqrt(r as int, n as int),
        r as int == isqrt_spec(n as int),
{
    let mut lo: u128 = 0;
    let mut hi: u128 = 18446744073709551616u128;
    proof {
        assert((hi as int) * (hi as int) > n as int) by (nonlinear_arith)
            requires
                hi == 18446744073709551616u128,
                n <= u128::MAX,
        {
        }
    }
    while hi - lo > 1
        invariant
            lo < hi,
            hi <= 18446744073709551616u128,
            (lo as int) * (lo as int) <= n as int,
            (hi as int) * (hi as int) > n as int,
        decreases hi - lo,
    {
        let mid: u128 = lo + (hi - lo) / 2;
        proof {
            assert((mid as int) * (mid as int) <= u128::MAX as int) by (nonlinear_arith)
                requires
                    mid < 18446744073709551616u128,
            {
            }
        }
        let sq: u128 = mid * mid;
        if sq <= n {
            lo = mid;
        } else {
            hi = mid;
        }
    }
    proof {
        lemma_isqrt_exists(n as int);
        let w = choose|r: int| #[trigger] is_isqrt(r, n as int);
        lemma_isqrt_unique(lo as int, w, n as int);
    }
    lo as u64
}

/// Square root of a scalar; non-positive inputs yield zero.
pub open spec fn fx_sqrt_spec(a: i64) -> i64 {
    if a <= 0 {
        0
    } else {
        fx_clip(isqrt_spec(a * 65536))
    }
}

pub fn fx_sqrt(a: i64) -> (r: i64)
    ensures
        r == fx_sqrt_spec(a),
{
    if a <= 0 {
        0
    } else {
        let n: u128 = (a as u128) * 65536;
        let s: u64 = isqrt_u128(n);
        proof {
            assert(s as int <= i64::MAX as int) by (nonlinear_arith)
                requires
                    (s as int) * (s as int) <= n as int,
                    n as int <= 604462909807314587353088,
            {
            }
        }
        s as i64
    }
}

/// Raises a scalar to a non-negative plain-integer power by left-folded
/// fixed-point products.
pub open spec fn fx_pow_spec(b: i64, n: nat) -> i64
    decreases n,
{
    if n == 0 {
        FX_ONE
    } else {
        fx_mul_spec(fx_pow_spec(b, (n - 1) as nat), b)
    }
}

pub fn fx_pow(b: i64, n: u64) -> (r: i64)
    ensures
        r == fx_pow_spec(b, n as nat),
{
    let mut acc: i64 = FX_ONE;
    let mut i: u64 = 0;
    while i < n
        invariant
            0 <= i <= n,
            acc == fx_pow_spec(b, i as nat),
        decreases n - i,
    {
        acc = fx_mul(acc, b);
        i = i + 1;
    }
    acc
}

/// Truncates a positive scalar to a plain integer exponent; non-positive
/// scalars yield zero.
pub open spec fn fx_to_exp_spec(a: i64) -> u64 {
    if a <= 0 {
        0
    } else {
        (a as int / 65536) as u64
    }
}

pub fn fx_to_exp(a: i64) -> (r: u64)
    ensures
        r == fx_to_exp_spec(a),
{
    if a <= 0 {
        0
    } else {
        (a as u64) / 65536
    }
}

/// A quarter turn; the angle units below take this as the right angle, so a
/// full turn is exactly four right angles.
pub const FX_HALF_PI: i64 = 102944;

/// Half a turn.
pub const FX_PI: i64 = 205888;

/// A full turn.
pub const FX_TAU: i64 = 411776;

/// Odd Taylor polynomial for the sine of an angle in `[0, FX_HALF_PI]`.
#[verifier::opaque]
pub open spec fn sin_poly_spec(x: i64) -> i64 {
    let x2 = fx_mul_spec(x, x);
    let x3 = fx_mul_spec(x2, x);
    let x5 = fx_mul_spec(x3, x2);
    let x7 = fx_mul_spec(x5, x2);
    fx_sub_spec(
        fx_add_spec(fx_sub_spec(x, fx_divi_spec(x3, 6)), fx_divi_spec(x5, 120)),
        fx_divi_spec(x7, 5040),
    )
}

fn sin_poly(x: i64) -> (r: i64)
    ensures
        r == sin_poly_spec(x),
{
    proof {
        reveal(sin_poly_spec);
    }
    let x2: i64 = fx_mul(x, x);
    let x3: i64 = fx_mul(x2, x);
    let x5: i64 = fx_mul(x3, x2);
    let x7: i64 = fx_mul(x5, x2);
    fx_sub(fx_add(fx_sub(x, fx_divi(x3, 6)), fx_divi(x5, 120)), fx_divi(x7, 5040))
}

/// Reduces an angle to `[0, FX_TAU)` by whole turns.
pub open spec fn angle_mod_spec(x: i64) -> i64 {
    if x >= 0 {
        (x as int % 411776) as i64
    } else {
        let m = (-(x as int)) % 411776;
        if m == 0 {
            0
        } else {
            (411776 - m) as i64
        }
    }
}

pub fn angle_mod(x: i64) -> (r: i64)
    ensures
        r == angle_mod_spec(x),
        0 <= r < 411776,
{
    if x >= 0 {
        ((x as u64) % 411776) as i64
    } else {
        let m: u64 = fx_mag(x) % 411776;
        if m == 0 {
            0
        } else {
            (411776 - m) as i64
        }
    }
}

/// Sine of an angle, by quadrant reduction onto the polynomial above.
pub open spec fn fx_sin_spec(x: i64) -> i64 {
    let r = angle_mod_spec(x);
    if r < 102944 {
        sin_poly_spec(r)
    } else if r < 205888 {
        sin_poly_spec((205888 - r as int) as i64)
    } else if r < 308832 {
        fx_neg_spec(sin_poly_spec((r as int - 205888) as i64))
    } else {
        fx_neg_spec(sin_poly_spec((411776 - r as int) as i64))
    }
}

pub fn fx_sin(x: i64) -> (r: i64)
    ensures
        r == fx_sin_spec(x),
{
    let a: i64 = angle_mod(x);
    if a < 102944 {
        sin_poly(a)
    } else if a < 205888 {
        sin_poly(205888 - a)
    } else if a < 308832 {
        fx_neg(sin_poly(a - 205888))
    } else {
        fx_neg(sin_poly(411776 - a))
    }
}

/// Cosine, as the sine of the angle advanced by a quarter turn.
pub open spec fn fx_cos_spec(x: i64) -> i64 {
    fx_sin_spec(fx_add_spec(x, 102944))
}

pub fn fx_cos(x: i64) -> (r: i64)
    ensures
        r == fx_cos_spec(x),
{
    fx_sin(fx_add(x, 102944))
}

/// Tangent, as the quotient of sine by cosine; saturates near odd quarter
/// turns, where the cosine vanishes.
pub open spec fn fx_tan_spec(x: i64) -> i64 {
    fx_div_spec(fx_sin_spec(x), fx_cos_spec(x))
}

pub fn fx_tan(x: i64) -> (r: i64)
    ensures
        r == fx_tan_spec(x),
{
    fx_div(fx_sin(x), fx_cos(x))
}

pub proof fn lemma_fx_sqrt_nonneg(a: i64)
    ensures
        fx_sqrt_spec(a) >= 0,
{
    if a > 0 {
        lemma_isqrt_exists(a * 65536);
        assert(is_isqrt(isqrt_spec(a * 65536), a * 65536));
    }
}

/// A square is non-negative.
pub proof fn lemma_fx_square_nonneg(x: i64)
    ensures
        fx_mul_spec(x, x) >= 0,
{
    let m = (fx_abs_spec(x) * fx_abs_spec(x)) / 65536;
    assert(fx_abs_spec(x) * fx_abs_spec(x) >= 0) by (nonlinear_arith);
    vstd::arithmetic::div_mod::lemma_div_is_ordered(0, fx_abs_spec(x) * fx_abs_spec(x), 65536);
    vstd::arithmetic::div_mod::lemma_div_of0(65536);
}

/// Division by a non-negative scalar preserves the order of dividends.
pub proof fn lemma_fx_div_monotone_num(n1: i64, n2: i64, d: i64)
    requires
        n1 <= n2,
        d >= 0,
    ensures
        fx_div_spec(n1, d) <= fx_div_spec(n2, d),
{
    if d != 0 {
        let dd = d as int;
        if n1 >= 0 {
            vstd::arithmetic::div_mod::lemma_div_is_ordered(
                fx_abs_spec(n1) * 65536,
                fx_abs_spec(n2) * 65536,
                dd,
            );
        } else if n2 < 0 {
            vstd::arithmetic::div_mod::lemma_div_is_ordered(
                fx_abs_spec(n2) * 65536,
                fx_abs_spec(n1) * 65536,
                dd,
            );
        } else {
            vstd::arithmetic::div_mod::lemma_div_is_ordered(0, fx_abs_spec(n1) * 65536, dd);
            vstd::arithmetic::div_mod::lemma_div_is_ordered(0, fx_abs_spec(n2) * 65536, dd);
            vstd::arithmetic::div_mod::lemma_div_of0(dd);
        }
    }
}

/// Clamps a scalar into `[lo, hi]`; callers pass `lo <= hi`.
pub open spec fn fx_clamp_spec(a: i64, lo: i64, hi: i64) -> i64 {
    if a < lo {
        lo
    } else if a > hi {
        hi
    } else {
        a
    }
}

pub fn fx_clamp(a: i64, lo: i64, hi: i64) -> (r: i64)
    ensures
        r == fx_clamp_spec(a, lo, hi),
{
    if a < lo {
        lo
    } else if a > hi {
        hi
    } else {
        a
    }
}

} // verus!
