use damn_diff::error::SolverError;
use damn_diff::examples::{ConstantSlope, ExpDecay, LinearSlope};
use damn_diff::fixed::{Fx, FX_MAX_RAW, FX_MIN_RAW, FX_SCALE};
use damn_diff::ode::qss::QSSSolver;
use damn_diff::ode::ODESolver;

fn fx(raw: i64) -> Fx {
    Fx::from_raw(raw)
}

fn to_f64(v: Fx) -> f64 {
    v.raw() as f64 / FX_SCALE as f64
}

#[test]
fn fixed_point_arithmetic_exact() {
    // 2.5 * 4 == 10
    assert_eq!(fx(2_500_000_000_000).mul(Fx::from_int(4)).raw(), 10_000_000_000_000);
    // 1 / 3 truncates toward zero at the scale
    assert_eq!(Fx::from_int(1).div(Fx::from_int(3)).raw(), 333_333_333_333);
    assert_eq!(Fx::from_int(-1).div(Fx::from_int(3)).raw(), -333_333_333_333);
    // saturation clamps at the symmetric bounds
    assert_eq!(fx(FX_MAX_RAW).add(fx(FX_MAX_RAW)).raw(), FX_MAX_RAW);
    assert_eq!(fx(FX_MIN_RAW).sub(fx(FX_MAX_RAW)).raw(), FX_MIN_RAW);
    assert_eq!(fx(i64::MIN).raw(), FX_MIN_RAW);
    assert_eq!(fx(FX_MIN_RAW).neg().raw(), FX_MAX_RAW);
    assert_eq!(fx(-7).abs().raw(), 7);
    // exact rational scaling: 1 * 1932/2197
    assert_eq!(Fx::from_int(1).mul_frac(1932, 2197).raw(), 879_380_974_055);
    assert!(fx(1).lt(fx(2)));
    assert!(fx(2).le(fx(2)));
}

#[test]
fn euler_single_step_exact() {
    // one step of dy/dx = -y from y = 1 with h = 0.01: y = 0.99 exactly
    let solver = ODESolver;
    let r = solver
        .eu_ivp(&ExpDecay, Fx::zero(), Fx::from_int(1), fx(10_000_000_000), fx(10_000_000_000))
        .unwrap();
    assert_eq!(r.raw(), 990_000_000_000);
}

#[test]
fn euler_literal_scenario() {
    // dy/dx = -y, y0 = 1, x0 = 0, h = 0.01, x_target = 1
    let solver = ODESolver;
    let r = solver
        .eu_ivp(&ExpDecay, Fx::zero(), Fx::from_int(1), fx(10_000_000_000), Fx::from_int(1))
        .unwrap();
    assert_eq!(r.raw(), 366_032_341_305);
    assert!((to_f64(r) - 0.3660).abs() < 1e-3);
}

#[test]
fn rk4_literal_scenario() {
    // same run with RK4 matches the analytic value to six decimal places
    let solver = ODESolver;
    let r = solver
        .rk4_ivp(&ExpDecay, Fx::zero(), Fx::from_int(1), fx(10_000_000_000), Fx::from_int(1))
        .unwrap();
    assert_eq!(r.raw(), 367_879_441_260);
    assert!((to_f64(r) - (-1.0f64).exp()).abs() < 1e-6);
}

#[test]
fn scalar_methods_on_decay_exact() {
    let solver = ODESolver;
    let x0 = Fx::zero();
    let y0 = Fx::from_int(1);
    let h = fx(10_000_000_000);
    let xt = Fx::from_int(1);
    assert_eq!(solver.he_ivp(&ExpDecay, x0, y0, h, xt).unwrap().raw(), 367_885_618_748);
    assert_eq!(solver.rk2_ivp(&ExpDecay, x0, y0, h, xt).unwrap().raw(), 367_885_618_762);
    assert_eq!(solver.ab_ivp(&ExpDecay, x0, y0, h, xt).unwrap().raw(), 371_620_087_082);
    assert_eq!(solver.am_ivp(&ExpDecay, x0, y0, h, xt).unwrap().raw(), 337_891_005_192);
    assert_eq!(solver.bs_ivp(&ExpDecay, x0, y0, h, xt).unwrap().raw(), 367_982_405_568);
    assert_eq!(
        solver.qss1_ivp(&ExpDecay, x0, y0, h, xt).unwrap().raw(),
        solver.eu_ivp(&ExpDecay, x0, y0, h, xt).unwrap().raw()
    );
}

#[test]
fn rk4_convergence_fourth_order() {
    // halving h divides the error by about sixteen
    let solver = ODESolver;
    let analytic = (-1.0f64).exp();
    let coarse = solver
        .rk4_ivp(&ExpDecay, Fx::zero(), Fx::from_int(1), fx(100_000_000_000), Fx::from_int(1))
        .unwrap();
    let fine = solver
        .rk4_ivp(&ExpDecay, Fx::zero(), Fx::from_int(1), fx(50_000_000_000), Fx::from_int(1))
        .unwrap();
    let e_coarse = (to_f64(coarse) - analytic).abs();
    let e_fine = (to_f64(fine) - analytic).abs();
    let ratio = e_coarse / e_fine;
    assert!(ratio > 10.0 && ratio < 24.0, "ratio {ratio}");
}

#[test]
fn euler_convergence_first_order() {
    // halving h divides the error by about two
    let solver = ODESolver;
    let analytic = (-1.0f64).exp();
    let coarse = solver
        .eu_ivp(&ExpDecay, Fx::zero(), Fx::from_int(1), fx(10_000_000_000), Fx::from_int(1))
        .unwrap();
    let fine = solver
        .eu_ivp(&ExpDecay, Fx::zero(), Fx::from_int(1), fx(5_000_000_000), Fx::from_int(1))
        .unwrap();
    let ratio = (to_f64(coarse) - analytic).abs() / (to_f64(fine) - analytic).abs();
    assert!(ratio > 1.8 && ratio < 2.2, "ratio {ratio}");
}

#[test]
fn rk4_exact_on_constant_slope() {
    // dy/dx = 3 integrated exactly for an uneven step: y = y0 + c * n * h
    let solver = ODESolver;
    let ode = ConstantSlope { c: Fx::from_int(3) };
    let h = fx(130_000_000_000);  // 0.13; 8 steps to pass 1.0
    let r = solver.rk4_ivp(&ode, Fx::zero(), Fx::from_int(2), h, Fx::from_int(1)).unwrap();
    // 2 + 3 * 0.13 * 8 == 5.12 exactly
    assert_eq!(r.raw(), 5_120_000_000_000);
}

#[test]
fn rk4_exact_on_linear_slope() {
    // dy/dx = x reproduced to fixed-point precision: y = x^2 / 2 at x = 1.3
    let solver = ODESolver;
    let h = fx(13_000_000_000);  // 0.013, 100 steps, no overshoot
    let r = solver.rk4_ivp(&LinearSlope, Fx::zero(), Fx::zero(), h, fx(1_300_000_000_000)).unwrap();
    assert!((to_f64(r) - 0.845).abs() < 1e-9, "got {}", to_f64(r));
}

#[test]
fn zero_step_size_refused() {
    let solver = ODESolver;
    let r = solver.eu_ivp(&ExpDecay, Fx::zero(), Fx::from_int(1), Fx::zero(), Fx::from_int(1));
    assert_eq!(r, Err(SolverError::ZeroStepSize));
    let r = solver.rk4_ivp(&ExpDecay, Fx::zero(), Fx::from_int(1), Fx::zero(), Fx::from_int(1));
    assert_eq!(r, Err(SolverError::ZeroStepSize));
    let r = solver.rkf_ivp(&ExpDecay, Fx::zero(), Fx::from_int(1), Fx::zero(), Fx::from_int(1));
    assert_eq!(r, Err(SolverError::ZeroStepSize));
}

#[test]
fn wrong_step_direction_refused() {
    let solver = ODESolver;
    let h_neg = fx(-10_000_000_000);
    let r = solver.eu_ivp(&ExpDecay, Fx::zero(), Fx::from_int(1), h_neg, Fx::from_int(1));
    assert_eq!(r, Err(SolverError::InvalidStepDirection));
    let h_pos = fx(10_000_000_000);
    let r = solver.he_ivp(&ExpDecay, Fx::from_int(1), Fx::from_int(1), h_pos, Fx::zero());
    assert_eq!(r, Err(SolverError::InvalidStepDirection));
}

#[test]
fn coincident_ends_take_no_step() {
    let solver = ODESolver;
    let y0 = fx(123_456_789);
    let r = solver.eu_ivp(&ExpDecay, Fx::from_int(1), y0, fx(10_000_000_000), Fx::from_int(1));
    assert_eq!(r, Ok(y0));
}

#[test]
fn backward_run_with_negative_step() {
    // integrating dy/dx = -y backward from x = 1 to x = 0 grows the state
    let solver = ODESolver;
    let r = solver
        .eu_ivp(&ExpDecay, Fx::from_int(1), Fx::from_int(1), fx(-10_000_000_000), Fx::zero())
        .unwrap();
    assert!(to_f64(r) > 2.7 && to_f64(r) < 2.8, "got {}", to_f64(r));
}

#[test]
fn qss_update_holds_below_quantum() {
    // the Euler trial changes y by -0.01; a quantum of 0.02 holds the value
    let qss = QSSSolver {};
    let y0 = Fx::from_int(1);
    let h = fx(10_000_000_000);
    let held = qss.update(&ExpDecay, Fx::zero(), y0, h, fx(20_000_000_000));
    assert_eq!(held, y0);
    let committed = qss.update(&ExpDecay, Fx::zero(), y0, h, fx(5_000_000_000));
    assert_eq!(committed.raw(), 990_000_000_000);
}

#[test]
fn qss_update_commits_at_exact_quantum() {
    // a change that equals the quantum exactly is committed
    let qss = QSSSolver {};
    let y0 = Fx::from_int(1);
    let h = fx(10_000_000_000);
    let r = qss.update(&ExpDecay, Fx::zero(), y0, h, fx(10_000_000_000));
    assert_eq!(r.raw(), 990_000_000_000);
}

#[test]
fn qss_higher_order_updates() {
    let qss = QSSSolver {};
    let y0 = Fx::from_int(1);
    let h = fx(10_000_000_000);
    let huge = Fx::from_int(1);
    // below the quantum both hold the previous value exactly
    assert_eq!(qss.update2(&ExpDecay, Fx::zero(), y0, h, huge), y0);
    assert_eq!(qss.update3(&ExpDecay, Fx::zero(), y0, h, huge), y0);
    // with a zero quantum both commit their trial values
    let u2 = qss.update2(&ExpDecay, Fx::zero(), y0, h, Fx::zero());
    let u3 = qss.update3(&ExpDecay, Fx::zero(), y0, h, Fx::zero());
    assert_eq!(u2.raw(), 990_050_000_000);
    assert_eq!(u3.raw(), 990_049_833_334);
}

#[test]
fn qss_runs_on_decay_exact() {
    let qss = QSSSolver {};
    let x0 = Fx::zero();
    let y0 = Fx::from_int(1);
    let h = fx(10_000_000_000);
    let xt = Fx::from_int(1);
    let dq = fx(1_000_000);
    assert_eq!(qss.ivp_qss2(&ExpDecay, x0, y0, h, xt, dq).unwrap().raw(), 367_885_618_748);
    assert_eq!(qss.ivp_qss3(&ExpDecay, x0, y0, h, xt, dq).unwrap().raw(), 367_879_425_754);
}

#[test]
fn qss_trajectory_layout() {
    // five steps: a leading zero, then the state after each step
    let qss = QSSSolver {};
    let h = fx(10_000_000_000);
    let traj = qss
        .ivp_qss1(&ExpDecay, Fx::zero(), Fx::from_int(1), h, fx(50_000_000_000), Fx::zero())
        .unwrap();
    let raws: Vec<i64> = traj.iter().map(|v| v.raw()).collect();
    assert_eq!(
        raws,
        vec![
            0,
            990_000_000_000,
            980_100_000_000,
            970_299_000_000,
            960_596_010_000,
            950_990_049_900,
        ]
    );
}

#[test]
fn qss_trajectory_holds_under_large_quantum() {
    // a huge quantum keeps the state at y0 for the whole run
    let qss = QSSSolver {};
    let h = fx(10_000_000_000);
    let traj = qss
        .ivp_qss1(&ExpDecay, Fx::zero(), Fx::from_int(1), h, fx(30_000_000_000), Fx::from_int(5))
        .unwrap();
    let raws: Vec<i64> = traj.iter().map(|v| v.raw()).collect();
    assert_eq!(raws, vec![0, FX_SCALE, FX_SCALE, FX_SCALE]);
}

#[test]
fn qss_trajectory_rejects_bad_arguments() {
    let qss = QSSSolver {};
    let r = qss.ivp_qss1(&ExpDecay, Fx::zero(), Fx::from_int(1), Fx::zero(), Fx::from_int(1), Fx::zero());
    assert_eq!(r, Err(SolverError::ZeroStepSize));
    let r = qss.ivp_qss1(
        &ExpDecay,
        Fx::zero(),
        Fx::from_int(1),
        fx(-10_000_000_000),
        Fx::from_int(1),
        Fx::zero(),
    );
    assert_eq!(r, Err(SolverError::InvalidStepDirection));
}

#[test]
fn error_descriptions() {
    assert_eq!(SolverError::ZeroStepSize.describe(), "zero step size");
    assert_eq!(SolverError::InvalidStepDirection.describe(), "invalid step direction");
    assert_eq!(SolverError::DimensionMismatch.describe(), "dimension mismatch");
}
