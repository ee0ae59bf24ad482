//! The weight transform: identity by default, quadratic when coefficients
//! are configured.
//!
//! The quadratic transform maps a base weight `x` to
//! `floor(a * sqrt(x) + b * x + c)`, making marginal voting power sub-linear
//! in deposited tokens.  Because `b * x + c` is an integer, that floor equals
//! `floor(a * sqrt(x)) + b * x + c`, and `floor(a * sqrt(x))` for integer `a`
//! is exact integer arithmetic on `a * a * x`.  That operand needs up to 190
//! bits, so the root is taken over a two-limb (192-bit) integer; the whole
//! computation is exact for the full coefficient range, and a value outside
//! the weight type is a fatal arithmetic error — precisely then.

use vstd::prelude::*;

use crate::error::EngineError;

verus! {

/// Coefficients `(a, b, c)` of the quadratic transform
/// `floor(a * sqrt(x) + b * x + c)`.
#[derive(Clone, Copy, Debug, PartialEq, Eq, Structural)]
pub struct QuadraticCoefficients {
    pub a: i64,
    pub b: i64,
    pub c: i64,
}

/// `r` is the integer square root of `n`: the largest integer whose square
/// does not exceed `n`.
pub open spec fn is_sqrt_floor(n: int, r: int) -> bool {
    &&& 0 <= r
    &&& r * r <= n
    &&& n < (r + 1) * (r + 1)
}

/// `floor(sqrt(n))`, for `n >= 0`.
pub open spec fn sqrt_floor(n: int) -> int {
    choose|r: int| is_sqrt_floor(n, r)
}

/// `ceil(sqrt(n))`, for `n >= 0`.
pub open spec fn sqrt_ceil(n: int) -> int {
    if sqrt_floor(n) * sqrt_floor(n) == n {
        sqrt_floor(n)
    } else {
        sqrt_floor(n) + 1
    }
}

/// `floor(a * sqrt(x))`, for `x >= 0`.  Since `a * sqrt(x)` is
/// `sign(a) * sqrt(a * a * x)`, this is the integer square root of
/// `a * a * x`, negated through a ceiling when `a` is negative.
pub open spec fn sqrt_term(a: int, x: int) -> int {
    if a >= 0 {
        sqrt_floor(a * a * x)
    } else {
        -sqrt_ceil(a * a * x)
    }
}

/// The exact mathematical value `floor(a * sqrt(x) + b * x + c)` of the
/// quadratic transform, before any range check.
pub open spec fn quad_value(q: QuadraticCoefficients, x: u64) -> int {
    sqrt_term(q.a as int, x as int) + q.b * x + q.c
}

/// What the transform returns.  Without coefficients it is the identity.
/// With coefficients it returns the exact `floor(a * sqrt(x) + b * x + c)`
/// whenever that value fits the weight type, and a fatal arithmetic error
/// exactly when it is negative or too large.
pub open spec fn spec_transform(x: u64, q: Option<QuadraticCoefficients>) -> Result<
    u64,
    EngineError,
> {
    match q {
        None => Ok(x),
        Some(q) => {
            if 0 <= quad_value(q, x) <= u64::MAX {
                Ok(quad_value(q, x) as u64)
            } else {
                Err(EngineError::ArithmeticOverflow)
            }
        },
    }
}

/// Every non-negative integer has an integer square root.
pub proof fn lemma_sqrt_floor_exists(n: int)
    requires
        0 <= n,
    ensures
        is_sqrt_floor(n, sqrt_floor(n)),
    decreases n,
{
    if n == 0 {
        assert(is_sqrt_floor(0, 0)) by (nonlinear_arith);
    } else {
        lemma_sqrt_floor_exists(n - 1);
        let r = sqrt_floor(n - 1);
        if (r + 1) * (r + 1) <= n {
            assert(is_sqrt_floor(n, r + 1)) by (nonlinear_arith)
                requires
                    0 <= r,
                    n - 1 < (r + 1) * (r + 1),
                    (r + 1) * (r + 1) <= n,
            ;
        } else {
            assert(is_sqrt_floor(n, r));
        }
        assert(exists|s: int| is_sqrt_floor(n, s));
    }
}

/// The integer square root is unique.
pub proof fn lemma_sqrt_floor_unique(n: int, r: int)
    requires
        is_sqrt_floor(n, r),
    ensures
        sqrt_floor(n) == r,
{
    assert(0 <= n) by (nonlinear_arith)
        requires
            is_sqrt_floor(n, r),
    ;
    lemma_sqrt_floor_exists(n);
    let s = sqrt_floor(n);
    assert(r == s) by (nonlinear_arith)
        requires
            is_sqrt_floor(n, r),
            is_sqrt_floor(n, s),
    ;
}

/// The integer square root never decreases when its argument grows.
pub proof fn lemma_sqrt_floor_monotonic(n1: int, n2: int)
    requires
        0 <= n1 <= n2,
    ensures
        sqrt_floor(n1) <= sqrt_floor(n2),
{
    lemma_sqrt_floor_exists(n1);
    lemma_sqrt_floor_exists(n2);
    let r1 = sqrt_floor(n1);
    let r2 = sqrt_floor(n2);
    assert(r1 <= r2) by (nonlinear_arith)
        requires
            is_sqrt_floor(n1, r1),
            is_sqrt_floor(n2, r2),
            n1 <= n2,
    ;
}

/// Law: the identity transform returns every base weight unchanged.
pub proof fn lemma_transform_identity(x: u64)
    ensures
        spec_transform(x, None) == Ok::<u64, EngineError>(x),
{
}

/// Law: with `a > 0`, `b >= 0` and `c >= 0` the quadratic transform is
/// monotone — a larger base weight never yields a smaller transformed value,
/// and never a smaller returned weight where both calls succeed.
pub proof fn lemma_transform_monotonic(q: QuadraticCoefficients, x1: u64, x2: u64)
    requires
        q.a > 0,
        q.b >= 0,
        q.c >= 0,
        x1 < x2,
    ensures
        quad_value(q, x1) <= quad_value(q, x2),
        (spec_transform(x1, Some(q)) is Ok && spec_transform(x2, Some(q)) is Ok)
            ==> spec_transform(x1, Some(q))->Ok_0 <= spec_transform(x2, Some(q))->Ok_0,
{
    let a = q.a as int;
    let p1 = a * a * x1;
    let p2 = a * a * x2;
    assert(0 <= p1 <= p2) by (nonlinear_arith)
        requires
            p1 == a * a * x1,
            p2 == a * a * x2,
            a > 0,
            0 <= x1 < x2,
    ;
    lemma_sqrt_floor_monotonic(p1, p2);
    assert(q.b * x1 <= q.b * x2) by (nonlinear_arith)
        requires
            q.b >= 0,
            x1 < x2,
    ;
}

/// The value of a two-limb number: `hi` counts multiples of 2^128, `lo`
/// what remains below 2^128.
pub open spec fn wide_value(hi: u128, lo: u128) -> int {
    (hi as int) * 0x1_0000_0000_0000_0000_0000_0000_0000_0000 + (lo as int)
}

/// Multiplies a 128-bit value by a 64-bit one, exactly, into two limbs.
fn wide_mul(m: u128, x: u64) -> (r: (u128, u128))
    ensures
        wide_value(r.0, r.1) == m * x,
        r.0 < 0x1_0000_0000_0000_0000u128,
{
    let two64: u128 = 0x1_0000_0000_0000_0000;
    let mh = m / two64;
    let ml = m % two64;
    assert(mh * x <= u128::MAX && ml * x <= u128::MAX) by (nonlinear_arith)
        requires
            mh < 0x1_0000_0000_0000_0000u128,
            ml < 0x1_0000_0000_0000_0000u128,
            x <= 0xffff_ffff_ffff_ffffu64,
    ;
    let t1: u128 = mh * (x as u128);
    let t2: u128 = ml * (x as u128);
    let th = t1 / two64;
    let tl = t1 % two64;
    let low1: u128 = tl * two64;
    assert(tl * two64 <= u128::MAX) by (nonlinear_arith)
        requires
            tl < 0x1_0000_0000_0000_0000u128,
            two64 == 0x1_0000_0000_0000_0000u128,
    ;
    let r: (u128, u128) = if t2 <= u128::MAX - low1 {
        (th, low1 + t2)
    } else {
        (th + 1, t2 - (u128::MAX - low1) - 1)
    };
    proof {
        assert(wide_value(r.0, r.1) == m * x) by (nonlinear_arith)
            requires
                m == mh * 0x1_0000_0000_0000_0000 + ml,
                t1 == mh * x,
                t2 == ml * x,
                t1 == th * 0x1_0000_0000_0000_0000 + tl,
                low1 == tl * 0x1_0000_0000_0000_0000,
                wide_value(r.0, r.1) == (th as int) * 0x1_0000_0000_0000_0000_0000_0000_0000_0000
                    + low1 + t2,
        ;
        assert(m * x < (0x1_0000_0000_0000_0000u128 as int)
            * 0x1_0000_0000_0000_0000_0000_0000_0000_0000) by (nonlinear_arith)
            requires
                m <= u128::MAX,
                x <= 0xffff_ffff_ffff_ffffu64,
        ;
    }
    r
}

/// Squares a value below 2^96, exactly, into two limbs.
fn wide_square(v: u128) -> (r: (u128, u128))
    requires
        v < 0x1_0000_0000_0000_0000_0000_0000u128,
    ensures
        wide_value(r.0, r.1) == v * v,
{
    let two64: u128 = 0x1_0000_0000_0000_0000;
    let vh = v / two64;
    let vl = v % two64;
    assert(vh < 0x1_0000_0000u128);
    assert(vh * vh < 0x1_0000_0000_0000_0000u128 && vh * vl <= u128::MAX && vl * vl
        <= u128::MAX) by (nonlinear_arith)
        requires
            vh < 0x1_0000_0000u128,
            vl < 0x1_0000_0000_0000_0000u128,
    ;
    let h2: u128 = vh * vh;
    let cross: u128 = vh * vl;
    assert(cross <= 0xffff_ffff_ffff_ffff_ffff_ffff_0000_0000u128 / 2) by (nonlinear_arith)
        requires
            cross == vh * vl,
            vh < 0x1_0000_0000u128,
            vl < 0x1_0000_0000_0000_0000u128,
    ;
    let cross2: u128 = cross + cross;
    let ch = cross2 / two64;
    let cl = cross2 % two64;
    let low1: u128 = cl * two64;
    assert(cl * two64 <= u128::MAX) by (nonlinear_arith)
        requires
            cl < 0x1_0000_0000_0000_0000u128,
            two64 == 0x1_0000_0000_0000_0000u128,
    ;
    let l2: u128 = vl * vl;
    let r: (u128, u128) = if l2 <= u128::MAX - low1 {
        (h2 + ch, low1 + l2)
    } else {
        (h2 + ch + 1, l2 - (u128::MAX - low1) - 1)
    };
    proof {
        assert(wide_value(r.0, r.1) == v * v) by (nonlinear_arith)
            requires
                v == vh * 0x1_0000_0000_0000_0000 + vl,
                h2 == vh * vh,
                cross2 == 2 * (vh * vl),
                cross2 == ch * 0x1_0000_0000_0000_0000 + cl,
                l2 == vl * vl,
                low1 == cl * 0x1_0000_0000_0000_0000,
                wide_value(r.0, r.1) == ((h2 + ch) as int)
                    * 0x1_0000_0000_0000_0000_0000_0000_0000_0000 + low1 + l2,
        ;
    }
    r
}

/// The integer square root of a two-limb value below 2^192, by bisection on
/// the root.
#[verifier::loop_isolation(false)]
fn wide_sqrt(p_hi: u128, p_lo: u128) -> (r: u128)
    requires
        p_hi < 0x1_0000_0000_0000_0000u128,
    ensures
        is_sqrt_floor(wide_value(p_hi, p_lo), r as int),
        r == sqrt_floor(wide_value(p_hi, p_lo)),
{
    let ghost p = wide_value(p_hi, p_lo);
    let mut lo_r: u128 = 0;
    let mut hi_r: u128 = 0x1_0000_0000_0000_0000_0000_0000;
    proof {
        assert(p < (hi_r as int) * (hi_r as int)) by (nonlinear_arith)
            requires
                hi_r == 0x1_0000_0000_0000_0000_0000_0000u128,
                p == wide_value(p_hi, p_lo),
                p_hi < 0x1_0000_0000_0000_0000u128,
                p_lo <= u128::MAX,
        ;
    }
    while lo_r + 1 < hi_r
        invariant
            lo_r < hi_r,
            hi_r <= 0x1_0000_0000_0000_0000_0000_0000,
            (lo_r as int) * (lo_r as int) <= p,
            p < (hi_r as int) * (hi_r as int),
        decreases hi_r - lo_r,
    {
        let mid = lo_r + (hi_r - lo_r) / 2;
        let sq = wide_square(mid);
        let le = sq.0 < p_hi || (sq.0 == p_hi && sq.1 <= p_lo);
        proof {
            assert(le == (wide_value(sq.0, sq.1) <= p));
        }
        if le {
            lo_r = mid;
        } else {
            hi_r = mid;
        }
    }
    proof {
        assert(hi_r == lo_r + 1);
        lemma_sqrt_floor_unique(p, lo_r as int);
    }
    lo_r
}

/// Applies the quadratic transform to a base weight: the exact
/// `floor(a * sqrt(x) + b * x + c)`, or a fatal arithmetic error for a value
/// outside the weight type.
pub fn convert_vote(input_voter_weight: u64, coefficients: &QuadraticCoefficients) -> (r: Result<
    u64,
    EngineError,
>)
    ensures
        r == spec_transform(input_voter_weight, Some(*coefficients)),
{
    let x = input_voter_weight;
    let a = coefficients.a;
    let b = coefficients.b;
    let c = coefficients.c;

    // |a| as an unsigned 128-bit value; |a| <= 2^63, so |a|^2 fits.
    let m: u128 = if a >= 0 {
        a as u128
    } else {
        (-(a as i128)) as u128
    };
    assert(m * m == (a as int) * (a as int) && m * m <= u128::MAX) by (nonlinear_arith)
        requires
            m == if a >= 0 {
                a as int
            } else {
                -(a as int)
            },
            -0x8000_0000_0000_0000 <= a as int <= 0x7fff_ffff_ffff_ffff,
    ;
    let m2: u128 = m * m;

    // a * a * x, exactly, in two limbs: up to 190 bits.
    let wp = wide_mul(m2, x);
    let p_hi = wp.0;
    let p_lo = wp.1;
    proof {
        assert(wide_value(p_hi, p_lo) == (a as int) * (a as int) * (x as int))
            by (nonlinear_arith)
            requires
                wide_value(p_hi, p_lo) == (m2 as int) * (x as int),
                m2 == (a as int) * (a as int),
        ;
    }
    let s = wide_sqrt(p_hi, p_lo);
    proof {
        assert(s < 0x1_0000_0000_0000_0000_0000_0000u128) by (nonlinear_arith)
            requires
                (s as int) * (s as int) <= wide_value(p_hi, p_lo),
                wide_value(p_hi, p_lo) < 0x1_0000_0000_0000_0000_0000_0000
                    * 0x1_0000_0000_0000_0000_0000_0000,
        ;
    }
    // floor(a * sqrt(x)): the root itself for a >= 0; for a < 0 the negated
    // root, less one unless the operand is a perfect square.
    let sterm: i128 = if a >= 0 {
        s as i128
    } else {
        let sq = wide_square(s);
        if sq.0 == p_hi && sq.1 == p_lo {
            -(s as i128)
        } else {
            proof {
                assert(wide_value(sq.0, sq.1) != wide_value(p_hi, p_lo));
            }
            -(s as i128) - 1
        }
    };
    proof {
        assert(sterm == sqrt_term(a as int, x as int));
        assert(-0x1_0000_0000_0000_0000_0000_0000 <= sterm
            <= 0x1_0000_0000_0000_0000_0000_0000);
        assert((b as int) * (x as int) <= 0x7fff_ffff_ffff_ffff * 0xffff_ffff_ffff_ffff)
            by (nonlinear_arith)
            requires
                b as int <= 0x7fff_ffff_ffff_ffff,
                0 <= x as int <= 0xffff_ffff_ffff_ffff,
        ;
        assert((b as int) * (x as int) >= -0x8000_0000_0000_0000 * 0xffff_ffff_ffff_ffff)
            by (nonlinear_arith)
            requires
                b as int >= -0x8000_0000_0000_0000,
                0 <= x as int <= 0xffff_ffff_ffff_ffff,
        ;
    }
    let bx: i128 = (b as i128) * (x as i128);

    let t: i128 = match sterm.checked_add(bx) {
        None => {
            // The sum left the 128-bit range on one side or the other; on
            // either side the transform value misses the weight type, since
            // c moves it by less than 2^63.
            proof {
                if sterm + bx > i128::MAX {
                    assert(quad_value(*coefficients, x) > u64::MAX);
                } else {
                    assert(quad_value(*coefficients, x) < 0);
                }
            }
            return Err(EngineError::ArithmeticOverflow);
        },
        Some(s1) => {
            match s1.checked_add(c as i128) {
                None => {
                    proof {
                        if s1 + c > i128::MAX {
                            assert(quad_value(*coefficients, x) > u64::MAX);
                        } else {
                            assert(quad_value(*coefficients, x) < 0);
                        }
                    }
                    return Err(EngineError::ArithmeticOverflow);
                },
                Some(t) => t,
            }
        },
    };
    assert(t == quad_value(*coefficients, x));
    if t < 0 {
        Err(EngineError::ArithmeticOverflow)
    } else if t > u64::MAX as i128 {
        Err(EngineError::ArithmeticOverflow)
    } else {
        Ok(t as u64)
    }
}

/// Maps a base weight to the final weight: the identity without
/// coefficients, the quadratic transform with them.
pub fn transform(base_weight: u64, coefficients: Option<QuadraticCoefficients>) -> (r: Result<
    u64,
    EngineError,
>)
    ensures
        r == spec_transform(base_weight, coefficients),
{
    match coefficients {
        None => Ok(base_weight),
        Some(q) => convert_vote(base_weight, &q),
    }
}

} // verus!
