use damn_diff::examples::{Harmonic, LotkaVolterra};
use damn_diff::fixed::{Fx, FX_SCALE};
use damn_diff::ode_sys::ODESysSolver;

fn fx(raw: i64) -> Fx {
    Fx::from_raw(raw)
}

fn to_f64(v: Fx) -> f64 {
    v.raw() as f64 / FX_SCALE as f64
}

fn energy(state: &[Fx]) -> f64 {
    let x = to_f64(state[0]);
    let v = to_f64(state[1]);
    x * x + v * v
}

fn unit_circle() -> Vec<Fx> {
    vec![Fx::from_int(1), Fx::zero()]
}

#[test]
fn rk4_conserves_oscillator_energy() {
    // ten thousand steps of the harmonic oscillator: the energy drift stays
    // far inside a one percent band
    let solver = ODESysSolver;
    let r = solver
        .rk_solve(&Harmonic, Fx::zero(), unit_circle(), Fx::from_int(100), fx(10_000_000_000))
        .unwrap();
    let e = energy(&r);
    assert!((e - 1.0).abs() < 0.01, "energy {e}");
}

#[test]
fn leapfrog_keeps_oscillator_energy_bounded() {
    let solver = ODESysSolver;
    let r = solver
        .lf_solve(&Harmonic, Fx::zero(), unit_circle(), Fx::from_int(10), fx(1_000_000_000))
        .unwrap();
    let e = energy(&r);
    assert!((e - 1.0).abs() < 0.01, "energy {e}");
}

#[test]
fn forest_ruth_keeps_oscillator_energy_bounded() {
    let solver = ODESysSolver;
    let r = solver
        .fr_solve(&Harmonic, Fx::zero(), unit_circle(), Fx::from_int(10), fx(1_000_000_000))
        .unwrap();
    let e = energy(&r);
    assert!((e - 1.0).abs() < 0.01, "energy {e}");
}

#[test]
fn verlet_keeps_oscillator_energy_bounded() {
    let solver = ODESysSolver;
    let r = solver
        .ve_solve(&Harmonic, Fx::zero(), unit_circle(), Fx::zero(), Fx::from_int(5), 10_000)
        .unwrap();
    let e = energy(&r);
    assert!((e - 1.0).abs() < 0.01, "energy {e}");
}

#[test]
fn yoshida_keeps_oscillator_energy_bounded() {
    let solver = ODESysSolver;
    let r = solver
        .y4_solve(&Harmonic, Fx::zero(), unit_circle(), Fx::from_int(1), fx(100_000_000))
        .unwrap();
    let e = energy(&r);
    assert!((e - 1.0).abs() < 0.01, "energy {e}");
}

#[test]
fn euler_diverges_on_oscillator() {
    // the same long run with the Euler method grows the energy monotonically
    // far past the band the conserving methods stay in
    let solver = ODESysSolver;
    let quarter = solver
        .eu_solve(&Harmonic, Fx::zero(), unit_circle(), Fx::from_int(25), fx(10_000_000_000))
        .unwrap();
    let full = solver
        .eu_solve(&Harmonic, Fx::zero(), unit_circle(), Fx::from_int(100), fx(10_000_000_000))
        .unwrap();
    assert!(energy(&quarter) > 1.0);
    assert!(energy(&full) > energy(&quarter));
    assert!(energy(&full) > 2.0, "energy {}", energy(&full));
}

fn lotka_volterra() -> LotkaVolterra {
    LotkaVolterra {
        alpha: fx(100_000_000_000),
        beta: fx(20_000_000_000),
        gamma: fx(300_000_000_000),
        delta: fx(10_000_000_000),
    }
}

fn assert_positive(state: &[Fx]) {
    for v in state {
        assert!(v.raw() > 0, "component not positive: {}", v.raw());
    }
}

#[test]
fn lotka_volterra_rk4_stays_positive_and_bounded() {
    // h = 0.01 over t in [0, 40], walked in four stretches so the state can
    // be inspected along the way
    let solver = ODESysSolver;
    let ode = lotka_volterra();
    let h = fx(10_000_000_000);
    let mut y = vec![Fx::from_int(40), Fx::from_int(10)];
    let mut x = Fx::zero();
    for stretch in 1..=4i64 {
        y = solver.rk_solve(&ode, x, y, Fx::from_int(10 * stretch), h).unwrap();
        x = Fx::from_int(10 * stretch);
        assert_positive(&y);
        assert!(to_f64(y[0]) < 100.0 && to_f64(y[1]) < 100.0);
    }
    assert_eq!(y[0].raw(), 32_110_253_301_312);
    assert_eq!(y[1].raw(), 11_228_793_787_516);
}

#[test]
fn lotka_volterra_euler_stays_positive_here() {
    // over this time span the Euler trajectory is still positive and
    // bounded, though it drifts from the fourth-order one
    let solver = ODESysSolver;
    let ode = lotka_volterra();
    let h = fx(10_000_000_000);
    let mut y = vec![Fx::from_int(40), Fx::from_int(10)];
    let mut x = Fx::zero();
    for stretch in 1..=4i64 {
        y = solver.eu_solve(&ode, x, y, Fx::from_int(10 * stretch), h).unwrap();
        x = Fx::from_int(10 * stretch);
        assert_positive(&y);
        assert!(to_f64(y[0]) < 100.0 && to_f64(y[1]) < 100.0);
    }
    assert_eq!(y[0].raw(), 32_151_120_055_703);
    assert_eq!(y[1].raw(), 11_274_960_961_757);
}

#[test]
fn lotka_volterra_oscillates() {
    // prey falls below its starting value mid-run and recovers later:
    // the trajectory is qualitatively oscillatory, not monotone
    let solver = ODESysSolver;
    let ode = lotka_volterra();
    let h = fx(10_000_000_000);
    let y0 = vec![Fx::from_int(40), Fx::from_int(10)];
    let quarter = solver.rk_solve(&ode, Fx::zero(), y0.clone(), Fx::from_int(10), h).unwrap();
    let full = solver.rk_solve(&ode, Fx::zero(), y0, Fx::from_int(40), h).unwrap();
    let start = 40.0;
    let mid = to_f64(quarter[0]);
    let end = to_f64(full[0]);
    assert!(mid < start, "mid {mid}");
    assert!(end > mid, "end {end} mid {mid}");
}
