//! Example derivative functions, scalar and vector, for demonstration and
//! exercising the integrators.

use vstd::prelude::*;

use crate::fixed::{fx_add_s, fx_mul_s, fx_neg_s, fx_sub_s, Fx};
use crate::ode::ODE;
use crate::ode_sys::ODESYS;

verus! {

/// The scalar equation `dy/dx = -y`, whose exact solution decays
/// exponentially.
pub struct ExpDecay;

impl ODE for ExpDecay {
    open spec fn deriv(&self, x: int, y: int) -> int {
        fx_neg_s(y)
    }

    fn eval(&self, x: Fx, y: Fx) -> (r: Fx) {
        y.neg()
    }
}

/// The scalar equation `dy/dx = c` for a constant `c`, whose exact solution
/// is a line.
pub struct ConstantSlope {
    /// The constant slope.
    pub c: Fx,
}

impl ODE for ConstantSlope {
    open spec fn deriv(&self, x: int, y: int) -> int {
        self.c@
    }

    fn eval(&self, x: Fx, y: Fx) -> (r: Fx) {
        self.c
    }
}

/// The scalar equation `dy/dx = x`, whose exact solution is a parabola.
pub struct LinearSlope;

impl ODE for LinearSlope {
    open spec fn deriv(&self, x: int, y: int) -> int {
        x
    }

    fn eval(&self, x: Fx, y: Fx) -> (r: Fx) {
        x
    }
}

/// The scalar equation `dy/dx = x + y`, a smooth non-stiff test equation.
pub struct SumSlope;

impl ODE for SumSlope {
    open spec fn deriv(&self, x: int, y: int) -> int {
        fx_add_s(x, y)
    }

    fn eval(&self, x: Fx, y: Fx) -> (r: Fx) {
        x.add(y)
    }
}

/// The harmonic oscillator `dx/dt = v, dv/dt = -x` over a two-component
/// state, whose exact trajectories conserve the energy `x^2 + v^2`.
pub struct Harmonic;

impl ODESYS for Harmonic {
    open spec fn deriv(&self, x: int, y: Seq<int>) -> Seq<int> {
        if y.len() == 2 {
            seq![y[1], fx_neg_s(y[0])]
        } else {
            Seq::empty()
        }
    }

    fn eval(&self, x: &Fx, y: &Vec<Fx>) -> (r: Vec<Fx>) {
        let mut r: Vec<Fx> = Vec::new();
        if y.len() == 2 {
            r.push(y[1]);
            r.push(y[0].neg());
        }
        proof {
            assert(r.deep_view() =~= self.deriv(x@, y.deep_view()));
        }
        r
    }
}

/// The uniform decay system `dy[i]/dx = -y[i]` in every component, defined
/// for any dimension.
pub struct UniformDecay;

impl ODESYS for UniformDecay {
    open spec fn deriv(&self, x: int, y: Seq<int>) -> Seq<int> {
        Seq::new(y.len(), |i: int| fx_neg_s(y[i]))
    }

    fn eval(&self, x: &Fx, y: &Vec<Fx>) -> (r: Vec<Fx>) {
        let mut r: Vec<Fx> = Vec::new();
        let mut i: usize = 0;
        while i < y.len()
            invariant
                i <= y@.len(),
                r@.len() == i,
                forall|j: int| 0 <= j < i ==> (#[trigger] r@[j])@ == fx_neg_s((y@[j])@),
            decreases y@.len() - i,
        {
            r.push(y[i].neg());
            i = i + 1;
        }
        proof {
            assert(r.deep_view() =~= self.deriv(x@, y.deep_view()));
        }
        r
    }
}

/// The Lotka-Volterra predator-prey system over the two-component state
/// `[prey, predator]`:
/// `d prey = alpha * prey - beta * prey * predator`,
/// `d predator = delta * prey * predator - gamma * predator`.
pub struct LotkaVolterra {
    /// Prey growth rate.
    pub alpha: Fx,
    /// Predation rate.
    pub beta: Fx,
    /// Predator death rate.
    pub gamma: Fx,
    /// Predator reproduction rate.
    pub delta: Fx,
}

impl ODESYS for LotkaVolterra {
    open spec fn deriv(&self, x: int, y: Seq<int>) -> Seq<int> {
        if y.len() == 2 {
            seq![
                fx_sub_s(
                    fx_mul_s(self.alpha@, y[0]),
                    fx_mul_s(fx_mul_s(self.beta@, y[0]), y[1]),
                ),
                fx_sub_s(
                    fx_mul_s(fx_mul_s(self.delta@, y[0]), y[1]),
                    fx_mul_s(self.gamma@, y[1]),
                ),
            ]
        } else {
            Seq::empty()
        }
    }

    fn eval(&self, x: &Fx, y: &Vec<Fx>) -> (r: Vec<Fx>) {
        let mut r: Vec<Fx> = Vec::new();
        if y.len() == 2 {
            let prey = y[0];
            let predator = y[1];
            r.push(self.alpha.mul(prey).sub(self.beta.mul(prey).mul(predator)));
            r.push(self.delta.mul(prey).mul(predator).sub(self.gamma.mul(predator)));
        }
        proof {
            assert(r.deep_view() =~= self.deriv(x@, y.deep_view()));
        }
        r
    }
}

} // verus!
