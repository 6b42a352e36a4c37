use damn_diff::error::SolverError;
use damn_diff::examples::{ExpDecay, Harmonic, UniformDecay};
use damn_diff::fixed::Fx;
use damn_diff::ode::ODESolver;
use damn_diff::ode_sys::qss_sys::QSSSysSolver;
use damn_diff::ode_sys::rk_sys::rk4_step;
use damn_diff::ode_sys::{add_vec, vec_scalar_mul, ODESysSolver};

fn fx(raw: i64) -> Fx {
    Fx::from_raw(raw)
}

fn ones(dim: usize) -> Vec<Fx> {
    vec![Fx::from_int(1); dim]
}

#[test]
fn vector_helpers_exact() {
    let a = vec![Fx::from_int(1), Fx::from_int(2)];
    let b = vec![Fx::from_int(3), Fx::from_int(-5)];
    let sum = add_vec(&a, &b);
    assert_eq!(sum.iter().map(|v| v.raw()).collect::<Vec<_>>(), vec![
        4_000_000_000_000,
        -3_000_000_000_000,
    ]);
    let scaled = vec_scalar_mul(&a, fx(500_000_000_000));
    assert_eq!(scaled.iter().map(|v| v.raw()).collect::<Vec<_>>(), vec![
        500_000_000_000,
        1_000_000_000_000,
    ]);
}

#[test]
fn dimension_invariant_all_methods() {
    // every vector integrator returns a state of the input's length, for
    // dimensions one through ten
    let solver = ODESysSolver;
    let qss = QSSSysSolver;
    let x0 = Fx::zero();
    let xt = Fx::from_int(1);
    let h = fx(100_000_000_000);
    for dim in 1..=10usize {
        let y = ones(dim);
        assert_eq!(solver.eu_solve(&UniformDecay, x0, y.clone(), xt, h).unwrap().len(), dim);
        assert_eq!(solver.rk_solve(&UniformDecay, x0, y.clone(), xt, h).unwrap().len(), dim);
        assert_eq!(solver.lf_solve(&UniformDecay, x0, y.clone(), xt, h).unwrap().len(), dim);
        assert_eq!(solver.fr_solve(&UniformDecay, x0, y.clone(), xt, h).unwrap().len(), dim);
        assert_eq!(solver.y4_solve(&UniformDecay, x0, y.clone(), xt, h).unwrap().len(), dim);
        assert_eq!(solver.ia_solve(&UniformDecay, x0, y.clone(), xt, h).unwrap().len(), dim);
        assert_eq!(solver.ve_solve(&UniformDecay, x0, y.clone(), x0, xt, 10).unwrap().len(), dim);
        assert_eq!(
            qss.solve(&UniformDecay, x0, y.clone(), x0, xt, 10, Fx::zero()).unwrap().len(),
            dim
        );
        assert_eq!(rk4_step(x0, &y, h, &UniformDecay).unwrap().len(), dim);
    }
}

#[test]
fn dimension_mismatch_fails_fast() {
    // the harmonic oscillator is defined over two components; a three-long
    // state is refused by every method
    let solver = ODESysSolver;
    let qss = QSSSysSolver;
    let x0 = Fx::zero();
    let xt = Fx::from_int(1);
    let h = fx(100_000_000_000);
    let y = ones(3);
    let e = Err(SolverError::DimensionMismatch);
    assert_eq!(solver.eu_solve(&Harmonic, x0, y.clone(), xt, h), e);
    assert_eq!(solver.rk_solve(&Harmonic, x0, y.clone(), xt, h), e);
    assert_eq!(solver.lf_solve(&Harmonic, x0, y.clone(), xt, h), e);
    assert_eq!(solver.fr_solve(&Harmonic, x0, y.clone(), xt, h), e);
    assert_eq!(solver.y4_solve(&Harmonic, x0, y.clone(), xt, h), e);
    assert_eq!(solver.ia_solve(&Harmonic, x0, y.clone(), xt, h), e);
    assert_eq!(solver.ve_solve(&Harmonic, x0, y.clone(), x0, xt, 10), e);
    assert_eq!(qss.solve(&Harmonic, x0, y.clone(), x0, xt, 10, Fx::zero()), e);
    assert_eq!(rk4_step(x0, &y, h, &Harmonic), e);
}

#[test]
fn vector_euler_matches_scalar_euler_per_component() {
    // uniform decay advances every component exactly as the scalar method
    // advances a single state
    let sys_solver = ODESysSolver;
    let solver = ODESolver;
    let h = fx(10_000_000_000);
    let xt = Fx::from_int(1);
    let scalar = solver.eu_ivp(&ExpDecay, Fx::zero(), Fx::from_int(1), h, xt).unwrap();
    let vector = sys_solver.eu_solve(&UniformDecay, Fx::zero(), ones(4), xt, h).unwrap();
    for v in &vector {
        assert_eq!(v.raw(), scalar.raw());
    }
}

#[test]
fn system_zero_step_refused() {
    let solver = ODESysSolver;
    let r = solver.eu_solve(&Harmonic, Fx::zero(), ones(2), Fx::from_int(1), Fx::zero());
    assert_eq!(r, Err(SolverError::ZeroStepSize));
    let r = solver.rk_solve(&Harmonic, Fx::from_int(1), ones(2), Fx::from_int(2), fx(-1));
    assert_eq!(r, Err(SolverError::InvalidStepDirection));
}

#[test]
fn range_forms_edge_cases() {
    let solver = ODESysSolver;
    let qss = QSSSysSolver;
    let y = vec![fx(42), fx(-7)];
    // zero iterations leave the state untouched
    let r = solver.ve_solve(&Harmonic, Fx::zero(), y.clone(), Fx::zero(), Fx::from_int(1), 0);
    assert_eq!(r, Ok(y.clone()));
    let r = qss.solve(&Harmonic, Fx::zero(), y.clone(), Fx::zero(), Fx::from_int(1), 0, Fx::zero());
    assert_eq!(r, Ok(y.clone()));
    // a range too narrow for the step count truncates the step to zero
    let r = solver.ve_solve(&Harmonic, Fx::zero(), y.clone(), Fx::zero(), Fx::zero(), 4);
    assert_eq!(r, Err(SolverError::ZeroStepSize));
    let r = qss.solve(&Harmonic, Fx::zero(), y.clone(), Fx::zero(), fx(3), 4, Fx::zero());
    assert_eq!(r, Err(SolverError::ZeroStepSize));
}

#[test]
fn empty_state_runs_empty() {
    // a zero-dimensional state is carried through unchanged
    let solver = ODESysSolver;
    let qss = QSSSysSolver;
    let x0 = Fx::zero();
    let xt = Fx::from_int(1);
    let h = fx(100_000_000_000);
    let y: Vec<Fx> = Vec::new();
    assert_eq!(solver.eu_solve(&UniformDecay, x0, y.clone(), xt, h), Ok(Vec::new()));
    assert_eq!(solver.rk_solve(&UniformDecay, x0, y.clone(), xt, h), Ok(Vec::new()));
    assert_eq!(
        qss.solve(&UniformDecay, x0, y.clone(), x0, xt, 10, Fx::zero()),
        Ok(Vec::new())
    );
}

#[test]
fn radau_probe_shifts_state() {
    // one step: the slope is taken at y + h in both components
    // k = [y1 + h, -(y0 + h)]; y' = y + h * k
    let solver = ODESysSolver;
    let h = fx(100_000_000_000);  // 0.1
    let y = vec![Fx::from_int(1), Fx::from_int(2)];
    let r = solver.ia_solve(&Harmonic, Fx::zero(), y, fx(100_000_000_000), h).unwrap();
    // k = [2.1, -1.1]; y' = [1 + 0.21, 2 - 0.11]
    assert_eq!(r[0].raw(), 1_210_000_000_000);
    assert_eq!(r[1].raw(), 1_890_000_000_000);
}
