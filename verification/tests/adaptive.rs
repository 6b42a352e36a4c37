use damn_diff::examples::{ConstantSlope, ExpDecay, SumSlope};
use damn_diff::fixed::{Fx, FX_SCALE};
use damn_diff::ode::ODESolver;

fn fx(raw: i64) -> Fx {
    Fx::from_raw(raw)
}

fn to_f64(v: Fx) -> f64 {
    v.raw() as f64 / FX_SCALE as f64
}

#[test]
fn step_keeps_size_on_zero_error() {
    // a constant-zero derivative gives identical embedded estimates, so the
    // step size is kept as it is
    let still = ConstantSlope { c: Fx::zero() };
    let h = fx(10_000_000_000);
    let (y_next, h_new) = ODESolver::step(&still, Fx::zero(), Fx::from_int(1), h, fx(1_000_000));
    assert_eq!(y_next, Fx::from_int(1));
    assert_eq!(h_new, h);
}

#[test]
fn step_grows_on_small_error() {
    // on the linear solution of dy/dx = x + y the error estimate is a few
    // raw units, far below the tolerance, so the next step is larger
    let h = fx(10_000_000_000);
    let (_, h_new) = ODESolver::step(&SumSlope, Fx::zero(), Fx::from_int(-1), h, fx(1_000_000));
    assert!(h_new.raw() > h.raw(), "h_new {}", h_new.raw());
}

#[test]
fn adaptive_error_within_tolerance_along_run() {
    // drive the adaptive loop as rkf_ivp does along the linear solution of
    // dy/dx = x + y; the step size never shrinks, which holds exactly when
    // each local error estimate stays within the tolerance
    let tolerance = fx(1_000_000);
    let mut x = Fx::zero();
    let mut y = Fx::from_int(-1);
    let mut h = fx(10_000_000_000);
    let xt = Fx::from_int(1);
    let mut steps = 0u32;
    while x.lt(xt) && steps < 1000 {
        let (y_next, h_new) = ODESolver::step(&SumSlope, x, y, h, tolerance);
        assert!(h_new.raw() >= h.raw(), "error exceeded tolerance at step {steps}");
        y = y_next;
        x = x.add(h);
        h = h_new;
        steps += 1;
    }
    assert!(steps >= 3);
    // the run follows y = -1 - x to fixed-point precision
    assert!((to_f64(y) + 1.0 + to_f64(x)).abs() < 1e-6);
}

#[test]
fn rkf_backward_target_returns_initial_state() {
    // the adaptive loop only advances a positive direction; with the target
    // behind the start it takes no step and hands back the initial state
    let solver = ODESolver;
    let y0 = fx(123_456_789_000);
    let r = solver.rkf_ivp(&ExpDecay, Fx::from_int(1), y0, fx(-10_000_000_000), Fx::zero());
    assert_eq!(r, Ok(y0));
}

#[test]
fn rkf_literal_run_exact() {
    // dy/dx = -y from y0 = 1 with initial h = 0.01; the adapted steps
    // overshoot the unit interval, reproducibly
    let solver = ODESolver;
    let r = solver
        .rkf_ivp(&ExpDecay, Fx::zero(), Fx::from_int(1), fx(10_000_000_000), Fx::from_int(1))
        .unwrap();
    assert_eq!(r.raw(), 310_320_241_697);
}
