//! Fixed-point time and interpolation arithmetic.
//!
//! All continuous quantities of the library are integers in fixed-point form:
//! sprite values (positions, degrees, scales, opacity) carry a thousandth of a
//! unit per step (`UNIT` is one whole unit), and times are in milliseconds.
//! Interpolation progress is a fraction of `FACTOR_ONE`, remapped by an easing
//! function before use.

use vstd::arithmetic::div_mod::{lemma_div_is_ordered, lemma_div_multiples_vanish,
    lemma_div_pos_is_pos};
use vstd::arithmetic::mul::{lemma_mul_inequality, lemma_mul_nonnegative};
use vstd::prelude::*;

verus! {

/// One whole unit of a sprite value: a position of 1.5 units is stored as 1500.
pub const UNIT: i64 = 1000;

/// Full interpolation progress: a factor of `FACTOR_ONE` means the end value.
pub const FACTOR_ONE: u64 = 1_000_000;

/// An easing function: a pure remapping of interpolation progress, shaping how
/// fast an action moves through its range. `Linear` leaves progress unchanged.
#[derive(Clone, Copy, Debug, PartialEq, Eq, Structural)]
pub enum EaseFunction {
    Linear,
    QuadraticIn,
    QuadraticOut,
    QuadraticInOut,
    QuinticIn,
    QuinticOut,
    QuinticInOut,
}

/// `a + b` capped at the largest representable time.
pub open spec fn sat_add(a: u64, b: u64) -> u64 {
    if a + b > u64::MAX {
        u64::MAX
    } else {
        (a + b) as u64
    }
}

/// Linear progress of time `t` through a duration, as a fraction of
/// `FACTOR_ONE`; a zero duration counts as already complete.
pub open spec fn scaled_progress(t: u64, dur: u64) -> int {
    if dur > 0 {
        t * FACTOR_ONE / (dur as int)
    } else {
        FACTOR_ONE as int
    }
}

/// One factor of five applied to a progress fraction `y`, staying in fixed
/// point: `y^5 / FACTOR_ONE^4`, evaluated a factor at a time.
pub open spec fn quint(y: int) -> int {
    let s = FACTOR_ONE as int;
    ((((y * y / s) * y / s) * y / s) * y) / s
}

/// The remapped progress fraction `ease_apply(f, x)` for progress `x` in
/// `[0, FACTOR_ONE]`. The in/out pairs are the usual quadratic and quintic
/// curves; the in-out forms run the `in` curve doubled up to the midpoint and
/// mirror it after.
pub open spec fn ease_apply(f: EaseFunction, x: int) -> int {
    let s = FACTOR_ONE as int;
    match f {
        EaseFunction::Linear => x,
        EaseFunction::QuadraticIn => x * x / s,
        EaseFunction::QuadraticOut => x * (2 * s - x) / s,
        EaseFunction::QuadraticInOut => {
            if 2 * x <= s {
                (2 * x) * (2 * x) / s / 2
            } else {
                s - (2 * (s - x)) * (2 * (s - x)) / s / 2
            }
        },
        EaseFunction::QuinticIn => quint(x),
        EaseFunction::QuinticOut => s - quint(s - x),
        EaseFunction::QuinticInOut => {
            if 2 * x <= s {
                quint(2 * x) / 2
            } else {
                s - quint(2 * (s - x)) / 2
            }
        },
    }
}

/// Progress of `t` through `dur` under easing `f`.
pub open spec fn eased_progress(f: EaseFunction, t: u64, dur: u64) -> int {
    ease_apply(f, scaled_progress(t, dur))
}

/// The value a fraction `fac` of the way from `start` to `end`.
pub open spec fn lerp(start: int, end: int, fac: int) -> int {
    let s = FACTOR_ONE as int;
    if end >= start {
        start + (end - start) * fac / s
    } else {
        start - (start - end) * fac / s
    }
}

/// `lerp` on sprite values; for a fraction in `[0, FACTOR_ONE]` the result
/// lies between `start` and `end`, so the cast does not change it.
pub open spec fn lerp_i64(start: i64, end: i64, fac: int) -> i64 {
    lerp(start as int, end as int, fac) as i64
}

/// For `0 <= b <= c`, scaling `a` by the fraction `b / c` cannot grow it:
/// `0 <= a * b / c <= a`.
pub proof fn lemma_mul_div_le(a: int, b: int, c: int)
    requires
        0 <= a,
        0 <= b <= c,
        0 < c,
    ensures
        0 <= a * b / c <= a,
{
    lemma_mul_nonnegative(a, b);
    lemma_div_pos_is_pos(a * b, c);
    lemma_mul_inequality(b, c, a);
    assert(b * a == a * b) by (nonlinear_arith);
    assert(c * a == a * c) by (nonlinear_arith);
    lemma_div_is_ordered(a * b, a * c, c);
    lemma_div_multiples_vanish(a, c);
}

/// Remapped progress stays a progress fraction: easing maps `[0, FACTOR_ONE]`
/// into itself.
pub proof fn lemma_ease_bounds(f: EaseFunction, x: int)
    requires
        0 <= x <= FACTOR_ONE,
    ensures
        0 <= ease_apply(f, x) <= FACTOR_ONE,
{
    let s = FACTOR_ONE as int;
    match f {
        EaseFunction::Linear => {},
        EaseFunction::QuadraticIn => {
            lemma_mul_div_le(x, x, s);
        },
        EaseFunction::QuadraticOut => {
            lemma_quad_out_bounds(x);
        },
        EaseFunction::QuadraticInOut => {
            if 2 * x <= s {
                lemma_mul_div_le(2 * x, 2 * x, s);
            } else {
                lemma_mul_div_le(2 * (s - x), 2 * (s - x), s);
            }
        },
        EaseFunction::QuinticIn => {
            lemma_quint_bounds(x);
        },
        EaseFunction::QuinticOut => {
            lemma_quint_bounds(s - x);
        },
        EaseFunction::QuinticInOut => {
            if 2 * x <= s {
                lemma_quint_bounds(2 * x);
            } else {
                lemma_quint_bounds(2 * (s - x));
            }
        },
    }
}

/// The quadratic-out curve stays a progress fraction.
proof fn lemma_quad_out_bounds(x: int)
    requires
        0 <= x <= FACTOR_ONE,
    ensures
        0 <= x * (2 * FACTOR_ONE - x) / (FACTOR_ONE as int) <= FACTOR_ONE,
{
    let s = FACTOR_ONE as int;
    lemma_mul_nonnegative(x, 2 * s - x);
    lemma_div_pos_is_pos(x * (2 * s - x), s);
    assert(x * (2 * s - x) <= s * s) by (nonlinear_arith)
        requires
            0 <= x <= s,
    ;
    lemma_div_is_ordered(x * (2 * s - x), s * s, s);
    lemma_div_multiples_vanish(s, s);
}

/// The fixed-point fifth power of a progress fraction is a progress fraction
/// no greater than its base.
pub proof fn lemma_quint_bounds(y: int)
    requires
        0 <= y <= FACTOR_ONE,
    ensures
        0 <= quint(y) <= y,
{
    let s = FACTOR_ONE as int;
    lemma_mul_div_le(y, y, s);
    lemma_mul_div_le(y * y / s, y, s);
    lemma_mul_div_le(y * y / s * y / s, y, s);
    lemma_mul_div_le(y * y / s * y / s * y / s, y, s);
}

/// Interpolation by a progress fraction lands between its start and end
/// values.
pub proof fn lemma_lerp_bounds(start: int, end: int, fac: int)
    requires
        0 <= fac <= FACTOR_ONE,
    ensures
        end >= start ==> start <= lerp(start, end, fac) <= end,
        end < start ==> end <= lerp(start, end, fac) <= start,
{
    let s = FACTOR_ONE as int;
    if end >= start {
        lemma_mul_div_le(end - start, fac, s);
    } else {
        lemma_mul_div_le(start - end, fac, s);
    }
}

/// `a + b` without overflow: capped at the largest representable time.
pub fn sat_add_time(a: u64, b: u64) -> (r: u64)
    ensures
        r == sat_add(a, b),
{
    if b > u64::MAX - a {
        u64::MAX
    } else {
        a + b
    }
}

/// The remapped progress of `t` through a positive duration `dur`, under `f`.
pub fn eased_factor(f: EaseFunction, t: u64, dur: u64) -> (r: u64)
    requires
        0 < dur,
        t <= dur,
    ensures
        r == eased_progress(f, t, dur),
        r <= FACTOR_ONE,
{
    proof {
        lemma_mul_inequality(t as int, u64::MAX as int, FACTOR_ONE as int);
    }
    let x_wide: u128 = (t as u128) * (FACTOR_ONE as u128) / (dur as u128);
    proof {
        lemma_mul_div_le(FACTOR_ONE as int, t as int, dur as int);
        assert((FACTOR_ONE as int) * (t as int) == (t as int) * (FACTOR_ONE as int))
            by (nonlinear_arith);
        lemma_ease_bounds(f, scaled_progress(t, dur));
    }
    let x: u64 = x_wide as u64;
    let s: u64 = FACTOR_ONE;
    match f {
        EaseFunction::Linear => x,
        EaseFunction::QuadraticIn => x * x / s,
        EaseFunction::QuadraticOut => x * (2 * s - x) / s,
        EaseFunction::QuadraticInOut => {
            if 2 * x <= s {
                (2 * x) * (2 * x) / s / 2
            } else {
                let z: u64 = 2 * (s - x);
                proof {
                    lemma_mul_div_le(z as int, z as int, s as int);
                }
                s - z * z / s / 2
            }
        },
        EaseFunction::QuinticIn => quint_exec(x),
        EaseFunction::QuinticOut => {
            proof {
                lemma_quint_bounds(s - x);
            }
            s - quint_exec(s - x)
        },
        EaseFunction::QuinticInOut => {
            if 2 * x <= s {
                quint_exec(2 * x) / 2
            } else {
                let z: u64 = 2 * (s - x);
                proof {
                    lemma_quint_bounds(z as int);
                }
                s - quint_exec(z) / 2
            }
        },
    }
}

/// The fixed-point fifth power of a progress fraction.
fn quint_exec(y: u64) -> (r: u64)
    requires
        y <= FACTOR_ONE,
    ensures
        r == quint(y as int),
{
    proof {
        let s = FACTOR_ONE as int;
        lemma_mul_div_le(y as int, y as int, s);
        lemma_mul_div_le(y as int * y / s, y as int, s);
        lemma_mul_div_le(y as int * y / s * y / s, y as int, s);
        lemma_mul_div_le(y as int * y / s * y / s * y / s, y as int, s);
    }
    let s: u64 = FACTOR_ONE;
    y * y / s * y / s * y / s * y / s
}

/// The value the fraction `fac` of the way from `start` to `end`; it lies
/// between the two.
pub fn lerp_value(start: i64, end: i64, fac: u64) -> (r: i64)
    requires
        fac <= FACTOR_ONE,
    ensures
        r == lerp_i64(start, end, fac as int),
        end >= start ==> start <= r <= end,
        end < start ==> end <= r <= start,
{
    proof {
        lemma_lerp_bounds(start as int, end as int, fac as int);
    }
    if end >= start {
        let d: u128 = ((end as i128) - (start as i128)) as u128;
        let q: u128 = d * (fac as u128) / (FACTOR_ONE as u128);
        proof {
            lemma_mul_div_le(d as int, fac as int, FACTOR_ONE as int);
        }
        ((start as i128) + (q as i128)) as i64
    } else {
        let d: u128 = ((start as i128) - (end as i128)) as u128;
        let q: u128 = d * (fac as u128) / (FACTOR_ONE as u128);
        proof {
            lemma_mul_div_le(d as int, fac as int, FACTOR_ONE as int);
        }
        ((start as i128) - (q as i128)) as i64
    }
}

} // verus!
