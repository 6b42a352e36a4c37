//! The Runge-Kutta-Fehlberg method with adaptive step size.
//!
//! Each step evaluates the six Fehlberg stages, accepts the fifth-order
//! combination, and adapts the size of the *next* step by the factor
//! `(tolerance / error)^(1/5)`, where `error` is the gap between the
//! embedded fourth- and fifth-order estimates.  Every step is accepted; only
//! the following step size changes.

use vstd::prelude::*;

use crate::error::SolverError;
use crate::fixed::{
    fx_abs_s, fx_add_s, fx_div_s, fx_mul_s, fx_muli_s, fx_mulfrac_s, fx_sub_s, tdiv, Fx, FX_SCALE,
    FX_MAX_RAW,
};
use crate::ode::{step_dir_ok, ODESolver, ODE};
use vstd::arithmetic::div_mod::{
    lemma_div_by_multiple, lemma_div_is_ordered, lemma_multiply_divide_lt,
};

verus! {

/// The tolerance every run adapts toward, `10^-6`, as a raw fixed-point
/// value.
pub const RKF_TOLERANCE_RAW: i64 = 1_000_000;

/// The fifth power of an integer.
pub open spec fn pow5(r: int) -> int {
    r * r * r * r * r
}

/// `r` is the floor of the fifth root of `n`.
pub open spec fn is_root5(n: int, r: int) -> bool {
    0 <= r && pow5(r) <= n && n < pow5(r + 1)
}

/// The floor of the fifth root of a non-negative integer; unique, by
/// [`lemma_root5_unique`].
pub open spec fn root5(n: int) -> int {
    choose|r: int| is_root5(n, r)
}

/// The fifth power is strictly monotonic on non-negative integers.
pub proof fn lemma_pow5_strict_mono(u: int, v: int)
    requires
        0 <= u < v,
    ensures
        pow5(u) < pow5(v),
{
    assert(u * u * u * u * u < v * v * v * v * v) by (nonlinear_arith)
        requires
            0 <= u,
            u < v,
    ;
}

/// The fifth power is strictly monotonic on non-negative integers, so the
/// floor of the fifth root is unique.
pub proof fn lemma_root5_unique(n: int, a: int, b: int)
    requires
        is_root5(n, a),
        is_root5(n, b),
    ensures
        a == b,
{
    if a < b {
        if a + 1 < b {
            lemma_pow5_strict_mono(a + 1, b);
        }
        assert(pow5(a + 1) <= pow5(b));
    }
    if b < a {
        if b + 1 < a {
            lemma_pow5_strict_mono(b + 1, a);
        }
        assert(pow5(b + 1) <= pow5(a));
    }
}

/// Every non-negative integer has a floor fifth root.
pub proof fn lemma_root5_exists(n: int)
    requires
        0 <= n,
    ensures
        is_root5(n, root5(n)),
    decreases n,
{
    if n == 0 {
        assert(is_root5(0, 0));
    } else {
        lemma_root5_exists(n - 1);
        let r = root5(n - 1);
        if n < pow5(r + 1) {
            assert(is_root5(n, r));
        } else {
            assert(n == pow5(r + 1));
            lemma_pow5_strict_mono(r + 1, r + 2);
            assert(is_root5(n, r + 1));
        }
        assert(exists|w: int| is_root5(n, w));
        assert(is_root5(n, root5(n)));
    }
}

/// The floor of the fifth root, by binary search over the raw range the
/// adaptive step computation produces.
fn floor_root5(n: u128) -> (r: u64)
    requires
        n as int <= 9_300_000_000_000_000_000_000_000_000_000_000_000,
    ensures
        is_root5(n as int, r as int),
        r as int == root5(n as int),
        r <= 25_000_000,
{
    let mut lo: u128 = 0;
    let mut hi: u128 = 25_000_000;
    assert(pow5(25_000_000) == 9_765_625_000_000_000_000_000_000_000_000_000_000int);
    while lo + 1 < hi
        invariant
            lo < hi,
            hi <= 25_000_000,
            pow5(lo as int) <= n as int,
            (n as int) < pow5(hi as int),
        decreases hi - lo,
    {
        let mid: u128 = lo + (hi - lo) / 2;
        proof {
            assert(mid * mid <= 625_000_000_000_000) by (nonlinear_arith)
                requires
                    mid <= 25_000_000,
            ;
        }
        let m2: u128 = mid * mid;
        proof {
            assert(m2 * m2 <= 390_625_000_000_000_000_000_000_000_000) by (nonlinear_arith)
                requires
                    m2 <= 625_000_000_000_000,
            ;
        }
        let m4: u128 = m2 * m2;
        proof {
            assert(m4 * mid <= 9_765_625_000_000_000_000_000_000_000_000_000_000)
                by (nonlinear_arith)
                requires
                    m4 <= 390_625_000_000_000_000_000_000_000_000,
                    mid <= 25_000_000,
            ;
        }
        let m5: u128 = m4 * mid;
        proof {
            assert(m5 as int == pow5(mid as int)) by (nonlinear_arith)
                requires
                    m2 == mid * mid,
                    m4 == m2 * m2,
                    m5 == m4 * mid,
            ;
        }
        if m5 <= n {
            lo = mid;
        } else {
            hi = mid;
        }
    }
    proof {
        assert(is_root5(n as int, lo as int));
        lemma_root5_unique(n as int, lo as int, root5(n as int));
    }
    lo as u64
}

/// The step size adapts around the tolerance: for a positive step, the
/// adapted size [`rkf_hnew_s`] is at least the current one exactly when the
/// local error estimate is within the tolerance.
pub proof fn lemma_rkf_adaptation_threshold(h: int, tol: int, err: int)
    requires
        0 < h <= FX_MAX_RAW as int,
        0 <= tol <= FX_MAX_RAW as int,
        0 <= err,
    ensures
        rkf_hnew_s(h, tol, err) >= h <==> err <= tol,
{
    if err != 0 {
        let s = FX_SCALE as int;
        let q = tdiv(tol * s, err);
        assert(0 <= tol * s) by (nonlinear_arith)
            requires
                0 <= tol,
                0 < s,
        ;
        assert(q == (tol * s) / err);
        let ratio = fx_div_s(tol, err);
        assert(0 <= (tol * s) / err) by {
            vstd::arithmetic::div_mod::lemma_div_pos_is_pos(tol * s, err);
        }
        let n = ratio * 1_000_000_000_000_000_000;
        assert(0 <= n && n <= 9_300_000_000_000_000_000_000_000_000_000_000_000)
            by (nonlinear_arith)
            requires
                0 <= ratio <= 0x7fff_ffff_ffff_ffff,
                n == ratio * 1_000_000_000_000_000_000,
        ;
        lemma_root5_exists(n);
        let r = root5(n);
        assert(pow5(1_000_000) == 1_000_000_000_000_000_000_000_000_000_000int);
        if err <= tol {
            // the ratio is at least one, so the factor is at least one
            assert(s * err <= tol * s) by (nonlinear_arith)
                requires
                    err <= tol,
                    0 < s,
            ;
            lemma_div_is_ordered(s * err, tol * s, err);
            lemma_div_by_multiple(s, err);
            assert((s * err) / err == s);
            assert(q >= s);
            assert(ratio >= s);
            assert(n >= s * 1_000_000_000_000_000_000) by (nonlinear_arith)
                requires
                    ratio >= s,
                    n == ratio * 1_000_000_000_000_000_000,
            ;
            if r + 1 <= 1_000_000 {
                if r + 1 < 1_000_000 {
                    lemma_pow5_strict_mono(r + 1, 1_000_000);
                }
                assert(pow5(r + 1) <= pow5(1_000_000));
                assert(false);
            }
            assert(r >= 1_000_000);
            let factor = 1_000_000 * r;
            assert(factor >= s);
            assert(h * factor >= h * s) by (nonlinear_arith)
                requires
                    factor >= s,
                    h > 0,
            ;
            assert(0 <= h * factor) by (nonlinear_arith)
                requires
                    0 <= h,
                    0 <= factor,
            ;
            lemma_div_is_ordered(h * s, h * factor, s);
            lemma_div_by_multiple(h, s);
            assert((h * s) / s == h);
            assert(tdiv(h * factor, s) >= h);
            assert(rkf_hnew_s(h, tol, err) >= h);
        } else {
            // the ratio is below one, so the factor loses at least one
            // granule and the truncating rescale loses at least one unit
            assert(tol * s < err * s) by (nonlinear_arith)
                requires
                    tol < err,
                    0 < s,
            ;
            lemma_multiply_divide_lt(tol * s, err, s);
            assert(q < s);
            assert(ratio == q);
            assert(n < s * 1_000_000_000_000_000_000) by (nonlinear_arith)
                requires
                    ratio < s,
                    0 <= ratio,
                    n == ratio * 1_000_000_000_000_000_000,
            ;
            if r >= 1_000_000 {
                if r > 1_000_000 {
                    lemma_pow5_strict_mono(1_000_000, r);
                }
                assert(pow5(1_000_000) <= pow5(r));
                assert(false);
            }
            let factor = 1_000_000 * r;
            assert(factor <= s - 1_000_000);
            assert(h * factor < s * h) by (nonlinear_arith)
                requires
                    factor < s,
                    0 < h,
            ;
            assert(0 <= h * factor) by (nonlinear_arith)
                requires
                    0 <= h,
                    0 <= factor,
            ;
            lemma_multiply_divide_lt(h * factor, s, h);
            assert(tdiv(h * factor, s) < h);
            assert(rkf_hnew_s(h, tol, err) < h);
        }
    }
}

/// The next step size: `h` scaled by the fixed-point fifth root of
/// `tolerance / error`, computed at a granularity of `10^-6`; a zero error
/// keeps the previous step size.
pub open spec fn rkf_hnew_s(h: int, tol: int, err: int) -> int {
    if err == 0 {
        h
    } else {
        let ratio = fx_div_s(tol, err);
        fx_mul_s(h, 1_000_000 * root5(ratio * 1_000_000_000_000_000_000))
    }
}

/// The embedded Fehlberg pair at `(x, y)`: the fourth-order and fifth-order
/// estimates of the next state.
pub open spec fn rkf_pair_s<D: ODE>(ode: &D, x: int, y: int, h: int) -> (int, int) {
    let k1 = fx_mul_s(h, ode.deriv(x, y));
    let k2 = fx_mul_s(
        h,
        ode.deriv(fx_add_s(x, fx_mulfrac_s(h, 1, 4)), fx_add_s(y, fx_mulfrac_s(k1, 1, 4))),
    );
    let k3 = fx_mul_s(
        h,
        ode.deriv(
            fx_add_s(x, fx_mulfrac_s(h, 3, 8)),
            fx_add_s(fx_add_s(y, fx_mulfrac_s(k1, 3, 32)), fx_mulfrac_s(k2, 9, 32)),
        ),
    );
    let k4 = fx_mul_s(
        h,
        ode.deriv(
            fx_add_s(x, fx_mulfrac_s(h, 12, 13)),
            fx_add_s(
                fx_add_s(fx_add_s(y, fx_mulfrac_s(k1, 1932, 2197)), fx_mulfrac_s(k2, -7200, 2197)),
                fx_mulfrac_s(k3, 7296, 2197),
            ),
        ),
    );
    let k5 = fx_mul_s(
        h,
        ode.deriv(
            fx_add_s(x, h),
            fx_add_s(
                fx_add_s(
                    fx_add_s(fx_add_s(y, fx_mulfrac_s(k1, 439, 216)), fx_muli_s(k2, -8)),
                    fx_mulfrac_s(k3, 3680, 513),
                ),
                fx_mulfrac_s(k4, -845, 4104),
            ),
        ),
    );
    let k6 = fx_mul_s(
        h,
        ode.deriv(
            fx_add_s(x, fx_mulfrac_s(h, 1, 2)),
            fx_add_s(
                fx_add_s(
                    fx_add_s(
                        fx_add_s(y, fx_mulfrac_s(k1, -8, 27)),
                        fx_muli_s(k2, 2),
                    ),
                    fx_mulfrac_s(k3, -3544, 2565),
                ),
                fx_add_s(fx_mulfrac_s(k4, 1859, 4104), fx_mulfrac_s(k5, -11, 40)),
            ),
        ),
    );
    let y4 = fx_add_s(
        fx_add_s(
            fx_add_s(fx_add_s(y, fx_mulfrac_s(k1, 25, 216)), fx_mulfrac_s(k3, 1408, 2565)),
            fx_mulfrac_s(k4, 2197, 4104),
        ),
        fx_mulfrac_s(k5, -1, 5),
    );
    let y5 = fx_add_s(
        fx_add_s(
            fx_add_s(
                fx_add_s(fx_add_s(y, fx_mulfrac_s(k1, 16, 135)), fx_mulfrac_s(k3, 6656, 12825)),
                fx_mulfrac_s(k4, 28561, 56430),
            ),
            fx_mulfrac_s(k5, -9, 50),
        ),
        fx_mulfrac_s(k6, 2, 55),
    );
    (y4, y5)
}

/// The accepted state after one Fehlberg step: the fifth-order estimate.
pub open spec fn rkf_accept_s<D: ODE>(ode: &D, x: int, y: int, h: int) -> int {
    rkf_pair_s(ode, x, y, h).1
}

/// The local error estimate of one Fehlberg step: the absolute gap between
/// the two embedded estimates.
pub open spec fn rkf_err_s<D: ODE>(ode: &D, x: int, y: int, h: int) -> int {
    fx_abs_s(fx_sub_s(rkf_pair_s(ode, x, y, h).0, rkf_pair_s(ode, x, y, h).1))
}

/// The state after an adaptive run from `(x, y)`: while `x` has not reached
/// `xt` and fuel remains, take one Fehlberg step, advance `x` by the step
/// just taken, and adapt the step size.  The fuel bounds the iteration count
/// (one raw unit of distance per step suffices, since a step smaller than
/// one raw unit no longer moves `x`).
pub open spec fn rkf_run_s<D: ODE>(
    ode: &D,
    x: int,
    y: int,
    h: int,
    xt: int,
    tol: int,
    fuel: nat,
) -> int
    decreases fuel,
{
    if fuel == 0 || x >= xt {
        y
    } else {
        rkf_run_s(
            ode,
            fx_add_s(x, h),
            rkf_accept_s(ode, x, y, h),
            rkf_hnew_s(h, tol, rkf_err_s(ode, x, y, h)),
            xt,
            tol,
            (fuel - 1) as nat,
        )
    }
}

/// The fuel an adaptive run starts with: the raw distance to the target.
pub open spec fn rkf_fuel(x0: int, xt: int) -> nat {
    if x0 < xt {
        (xt - x0) as nat
    } else {
        0
    }
}

impl ODESolver {
    /// Solve the initial value problem with the Runge-Kutta-Fehlberg method:
    /// from `(x0, y0)`, take Fehlberg steps with the tolerance `10^-6` until
    /// `x` reaches `x_target`, adapting each following step size.
    pub fn rkf_ivp<D: ODE>(&self, ode: &D, x0: Fx, y0: Fx, h: Fx, x_target: Fx) -> (r: Result<
        Fx,
        SolverError,
    >)
        ensures
            h@ == 0 ==> r == Err::<Fx, SolverError>(SolverError::ZeroStepSize),
            h@ != 0 && !step_dir_ok(x0@, x_target@, h@) ==> r == Err::<Fx, SolverError>(
                SolverError::InvalidStepDirection,
            ),
            h@ != 0 && step_dir_ok(x0@, x_target@, h@) ==> (r matches Ok(y) && y@ == rkf_run_s(
                ode,
                x0@,
                y0@,
                h@,
                x_target@,
                RKF_TOLERANCE_RAW as int,
                rkf_fuel(x0@, x_target@),
            )),
    {
        let hr = h.raw();
        let x0r = x0.raw();
        let xtr = x_target.raw();
        if hr == 0 {
            return Err(SolverError::ZeroStepSize);
        }
        if (x0r < xtr && hr < 0) || (x0r > xtr && hr > 0) {
            return Err(SolverError::InvalidStepDirection);
        }
        let tolerance = Fx::from_raw(RKF_TOLERANCE_RAW);
        let mut fuel: u128 = if x0r < xtr {
            (xtr as i128 - x0r as i128) as u128
        } else {
            0
        };
        let mut x = x0;
        let mut y = y0;
        let mut h_cur = h;
        while fuel > 0 && x.lt(x_target)
            invariant
                tolerance@ == RKF_TOLERANCE_RAW as int,
                rkf_run_s(ode, x@, y@, h_cur@, x_target@, RKF_TOLERANCE_RAW as int, fuel as nat)
                    == rkf_run_s(
                    ode,
                    x0@,
                    y0@,
                    h@,
                    x_target@,
                    RKF_TOLERANCE_RAW as int,
                    rkf_fuel(x0@, x_target@),
                ),
            decreases fuel,
        {
            let (y_next, h_new) = Self::step(ode, x, y, h_cur, tolerance);
            y = y_next;
            x = x.add(h_cur);
            h_cur = h_new;
            fuel = fuel - 1;
        }
        Ok(y)
    }

    /// One Fehlberg step at `(x, y)`: the accepted fifth-order state and the
    /// adapted size of the next step.
    pub fn step<D: ODE>(ode: &D, x: Fx, y: Fx, h: Fx, tolerance: Fx) -> (r: (Fx, Fx))
        requires
            tolerance@ >= 0,
        ensures
            r.0@ == rkf_accept_s(ode, x@, y@, h@),
            r.1@ == rkf_hnew_s(h@, tolerance@, rkf_err_s(ode, x@, y@, h@)),
    {
        let k1 = h.mul(ode.eval(x, y));
        let k2 = h.mul(ode.eval(x.add(h.mul_frac(1, 4)), y.add(k1.mul_frac(1, 4))));
        let k3 = h.mul(
            ode.eval(x.add(h.mul_frac(3, 8)), y.add(k1.mul_frac(3, 32)).add(k2.mul_frac(9, 32))),
        );
        let k4 = h.mul(
            ode.eval(
                x.add(h.mul_frac(12, 13)),
                y.add(k1.mul_frac(1932, 2197)).add(k2.mul_frac(-7200, 2197)).add(
                    k3.mul_frac(7296, 2197),
                ),
            ),
        );
        let k5 = h.mul(
            ode.eval(
                x.add(h),
                y.add(k1.mul_frac(439, 216)).add(k2.mul_int(-8)).add(k3.mul_frac(3680, 513)).add(
                    k4.mul_frac(-845, 4104),
                ),
            ),
        );
        let k6 = h.mul(
            ode.eval(
                x.add(h.mul_frac(1, 2)),
                y.add(k1.mul_frac(-8, 27)).add(k2.mul_int(2)).add(k3.mul_frac(-3544, 2565)).add(
                    k4.mul_frac(1859, 4104).add(k5.mul_frac(-11, 40)),
                ),
            ),
        );
        let y4 = y.add(k1.mul_frac(25, 216)).add(k3.mul_frac(1408, 2565)).add(
            k4.mul_frac(2197, 4104),
        ).add(k5.mul_frac(-1, 5));
        let y5 = y.add(k1.mul_frac(16, 135)).add(k3.mul_frac(6656, 12825)).add(
            k4.mul_frac(28561, 56430),
        ).add(k5.mul_frac(-9, 50)).add(k6.mul_frac(2, 55));
        let error = y4.sub(y5).abs();
        let h_new = Self::adapt_step(h, tolerance, error);
        (y5, h_new)
    }

    /// The adapted next step size for a given tolerance and local error.
    fn adapt_step(h: Fx, tolerance: Fx, error: Fx) -> (r: Fx)
        requires
            tolerance@ >= 0,
            error@ >= 0,
        ensures
            r@ == rkf_hnew_s(h@, tolerance@, error@),
    {
        let er = error.raw();
        if er == 0 {
            return h;
        }
        let ratio = tolerance.div(error);
        let rr = ratio.raw();
        let n: u128 = (rr as u128) * 1_000_000_000_000_000_000;
        let rt: u64 = floor_root5(n);
        let factor = Fx::from_raw((rt as i64) * 1_000_000);
        proof {
            assert(factor@ == 1_000_000 * root5(ratio@ * 1_000_000_000_000_000_000));
        }
        h.mul(factor)
    }
}

} // verus!
