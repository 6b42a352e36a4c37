//! The classical Runge-Kutta methods of order two and four.

use vstd::prelude::*;

use crate::error::SolverError;
use crate::fixed::{fx_add_s, fx_divi_s, fx_mul_s, fx_muli_s, tdiv, Fx, FX_MAX_RAW};
use crate::ode::{ivp_steps, scalar_steps, step_dir_ok, ODESolver, ODE};
use vstd::arithmetic::div_mod::lemma_div_by_multiple;

verus! {

/// Truncating division recovers a multiple of six exactly.
proof fn lemma_tdiv_six_exact(m: int)
    ensures
        tdiv(6 * m, 6) == m,
{
    if m >= 0 {
        lemma_div_by_multiple(m, 6);
        assert(m * 6 == 6 * m);
    } else {
        lemma_div_by_multiple(-m, 6);
        assert((-m) * 6 == -(6 * m));
    }
}

/// Exact reproduction of constant-slope solutions: when the derivative is
/// the constant `c` everywhere and neither the per-step increment nor the
/// running state saturates, `n` fourth-order Runge-Kutta steps advance the
/// state by exactly `n` times the per-step increment `h * c` — the same
/// update the exact solution `y(x) = y0 + c * (x - x0)` takes per step, up
/// to the one rounding in the fixed-point product `h * c`.
pub proof fn lemma_rk4_constant_slope_exact<D: ODE>(
    ode: &D,
    x0: int,
    y0: int,
    h: int,
    c: int,
    n: nat,
)
    requires
        forall|x: int, y: int| #[trigger] ode.deriv(x, y) == c,
        -(FX_MAX_RAW as int) <= 6 * fx_mul_s(h, c),
        6 * fx_mul_s(h, c) <= FX_MAX_RAW as int,
        -(FX_MAX_RAW as int) <= y0,
        y0 <= FX_MAX_RAW as int,
        -(FX_MAX_RAW as int) <= y0 + n * fx_mul_s(h, c),
        y0 + n * fx_mul_s(h, c) <= FX_MAX_RAW as int,
    ensures
        rk4_run_s(ode, x0, y0, h, n) == y0 + n * fx_mul_s(h, c),
    decreases n,
{
    let m = fx_mul_s(h, c);
    if n == 0 {
        assert(n * m == 0) by (nonlinear_arith)
            requires
                n == 0,
        ;
    } else {
        lemma_tdiv_six_exact(m);
        assert(rk4_step_s(ode, x0, y0, h) == fx_add_s(y0, m));
        assert((y0 + m) + (n - 1) * m == y0 + n * m) by (nonlinear_arith);
        assert(m <= n * m || m >= n * m) by (nonlinear_arith)
            requires
                n >= 1,
        ;
        assert(0 <= m ==> m <= n * m) by (nonlinear_arith)
            requires
                n >= 1,
        ;
        assert(m < 0 ==> n * m <= m) by (nonlinear_arith)
            requires
                n >= 1,
        ;
        lemma_rk4_constant_slope_exact(ode, fx_add_s(x0, h), y0 + m, h, c, (n - 1) as nat);
    }
}

/// One second-order Runge-Kutta update: `k1 = h * f(x, y)`,
/// `k2 = h * f(x + h, y + k1)`, advance by `(k1 + k2) / 2`.
pub open spec fn rk2_step_s<D: ODE>(ode: &D, x: int, y: int, h: int) -> int {
    let k1 = fx_mul_s(h, ode.deriv(x, y));
    let k2 = fx_mul_s(h, ode.deriv(fx_add_s(x, h), fx_add_s(y, k1)));
    fx_add_s(y, fx_divi_s(fx_add_s(k1, k2), 2))
}

/// The state after `n` second-order Runge-Kutta steps from `(x, y)`.
pub open spec fn rk2_run_s<D: ODE>(ode: &D, x: int, y: int, h: int, n: nat) -> int
    decreases n,
{
    if n == 0 {
        y
    } else {
        rk2_run_s(ode, fx_add_s(x, h), rk2_step_s(ode, x, y, h), h, (n - 1) as nat)
    }
}

/// One classical fourth-order Runge-Kutta update, with stages at the start,
/// the midpoint (twice) and the end of the step, combined as
/// `(k1 + 2 k2 + 2 k3 + k4) / 6`.
pub open spec fn rk4_step_s<D: ODE>(ode: &D, x: int, y: int, h: int) -> int {
    let k1 = fx_mul_s(h, ode.deriv(x, y));
    let k2 = fx_mul_s(h, ode.deriv(fx_add_s(x, fx_divi_s(h, 2)), fx_add_s(y, fx_divi_s(k1, 2))));
    let k3 = fx_mul_s(h, ode.deriv(fx_add_s(x, fx_divi_s(h, 2)), fx_add_s(y, fx_divi_s(k2, 2))));
    let k4 = fx_mul_s(h, ode.deriv(fx_add_s(x, h), fx_add_s(y, k3)));
    let slope = fx_divi_s(
        fx_add_s(fx_add_s(fx_add_s(k1, fx_muli_s(k2, 2)), fx_muli_s(k3, 2)), k4),
        6,
    );
    fx_add_s(y, slope)
}

/// The state after `n` fourth-order Runge-Kutta steps from `(x, y)`.
pub open spec fn rk4_run_s<D: ODE>(ode: &D, x: int, y: int, h: int, n: nat) -> int
    decreases n,
{
    if n == 0 {
        y
    } else {
        rk4_run_s(ode, fx_add_s(x, h), rk4_step_s(ode, x, y, h), h, (n - 1) as nat)
    }
}

impl ODESolver {
    /// Solve the initial value problem with the classical fourth-order
    /// Runge-Kutta method, stepping from `(x0, y0)` until `x` reaches
    /// `x_target`.
    pub fn rk4_ivp<D: ODE>(&self, ode: &D, x0: Fx, y0: Fx, h: Fx, x_target: Fx) -> (r: Result<
        Fx,
        SolverError,
    >)
        ensures
            h@ == 0 ==> r == Err::<Fx, SolverError>(SolverError::ZeroStepSize),
            h@ != 0 && !step_dir_ok(x0@, x_target@, h@) ==> r == Err::<Fx, SolverError>(
                SolverError::InvalidStepDirection,
            ),
            h@ != 0 && step_dir_ok(x0@, x_target@, h@) ==> (r matches Ok(y) && y@ == rk4_run_s(
                ode,
                x0@,
                y0@,
                h@,
                ivp_steps(x0@, x_target@, h@),
            )),
    {
        let n = match scalar_steps(x0, h, x_target) {
            Ok(n) => n,
            Err(e) => {
                return Err(e);
            },
        };
        let mut x = x0;
        let mut y = y0;
        let mut i: u128 = 0;
        while i < n
            invariant
                i <= n,
                rk4_run_s(ode, x@, y@, h@, (n - i) as nat) == rk4_run_s(
                    ode,
                    x0@,
                    y0@,
                    h@,
                    n as nat,
                ),
            decreases n - i,
        {
            let k1 = h.mul(ode.eval(x, y));
            let k2 = h.mul(ode.eval(x.add(h.div_int(2)), y.add(k1.div_int(2))));
            let k3 = h.mul(ode.eval(x.add(h.div_int(2)), y.add(k2.div_int(2))));
            let k4 = h.mul(ode.eval(x.add(h), y.add(k3)));
            let slope = k1.add(k2.mul_int(2)).add(k3.mul_int(2)).add(k4).div_int(6);
            y = y.add(slope);
            x = x.add(h);
            i = i + 1;
        }
        Ok(y)
    }

    /// Solve the initial value problem with the second-order Runge-Kutta
    /// method, stepping from `(x0, y0)` until `x` reaches `x_target`.
    pub fn rk2_ivp<D: ODE>(&self, ode: &D, x0: Fx, y0: Fx, h: Fx, x_target: Fx) -> (r: Result<
        Fx,
        SolverError,
    >)
        ensures
            h@ == 0 ==> r == Err::<Fx, SolverError>(SolverError::ZeroStepSize),
            h@ != 0 && !step_dir_ok(x0@, x_target@, h@) ==> r == Err::<Fx, SolverError>(
                SolverError::InvalidStepDirection,
            ),
            h@ != 0 && step_dir_ok(x0@, x_target@, h@) ==> (r matches Ok(y) && y@ == rk2_run_s(
                ode,
                x0@,
                y0@,
                h@,
                ivp_steps(x0@, x_target@, h@),
            )),
    {
        let n = match scalar_steps(x0, h, x_target) {
            Ok(n) => n,
            Err(e) => {
                return Err(e);
            },
        };
        let mut x = x0;
        let mut y = y0;
        let mut i: u128 = 0;
        while i < n
            invariant
                i <= n,
                rk2_run_s(ode, x@, y@, h@, (n - i) as nat) == rk2_run_s(
                    ode,
                    x0@,
                    y0@,
                    h@,
                    n as nat,
                ),
            decreases n - i,
        {
            let k1 = h.mul(ode.eval(x, y));
            let k2 = h.mul(ode.eval(x.add(h), y.add(k1)));
            y = y.add(k1.add(k2).div_int(2));
            x = x.add(h);
            i = i + 1;
        }
        Ok(y)
    }
}

} // verus!
