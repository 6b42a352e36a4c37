//! Systems of ordinary differential equations and their integrators.
//!
//! A caller implements [`ODESYS`] for the system `dy/dx = f(x, y)` over a
//! state vector and hands it to one of the [`ODESysSolver`] methods.  Every
//! method checks at each derivative evaluation that the returned vector has
//! the state's length and otherwise fails with
//! [`crate::error::SolverError::DimensionMismatch`]; on success the returned
//! state has the length of the initial state.

pub mod euler_sys;
pub mod forest_ruth;
pub mod leapfrog;
pub mod qss_sys;
pub mod radau;
pub mod rk_sys;
pub mod verlet;
pub mod yoshida4;

use vstd::prelude::*;

use crate::fixed::{fx_add_s, fx_divi_s, fx_mul_s, fx_sub_s, Fx};

verus! {

/// The derivative capability a caller supplies for a system: `eval` computes
/// the derivative vector at `(x, y)`, and `deriv` is its mathematical
/// description, which the integrators' contracts are stated over.  The
/// integrators check, at every call, that the returned vector has the
/// state's length.
pub trait ODESYS {
    /// The vector `eval` returns, as a function of the operands' raw
    /// fixed-point values.
    spec fn deriv(&self, x: int, y: Seq<int>) -> Seq<int>;

    /// Evaluate the derivative vector `dy/dx` at `(x, y)`.
    fn eval(&self, x: &Fx, y: &Vec<Fx>) -> (r: Vec<Fx>)
        ensures
            r.deep_view() == self.deriv(x@, y.deep_view()),
    ;
}

/// Solver for systems of ordinary differential equations.  Each associated
/// method implements one stepping algorithm over an [`ODESYS`].
pub struct ODESysSolver;

/// Elementwise saturating sum of two equally long vectors.
pub open spec fn seq_add_vs(a: Seq<int>, b: Seq<int>) -> Seq<int> {
    Seq::new(a.len(), |i: int| fx_add_s(a[i], b[i]))
}

/// Elementwise saturating product with a fixed-point scalar.
pub open spec fn seq_scale_vs(a: Seq<int>, s: int) -> Seq<int> {
    Seq::new(a.len(), |i: int| fx_mul_s(a[i], s))
}

/// Elementwise truncating division by a plain integer.
pub open spec fn seq_divi_vs(a: Seq<int>, k: int) -> Seq<int> {
    Seq::new(a.len(), |i: int| fx_divi_s(a[i], k))
}

/// Elementwise sum, the leaf helper of every vector integrator.
pub fn add_vec(a: &Vec<Fx>, b: &Vec<Fx>) -> (r: Vec<Fx>)
    requires
        a@.len() == b@.len(),
    ensures
        r.deep_view() == seq_add_vs(a.deep_view(), b.deep_view()),
        r@.len() == a@.len(),
{
    let mut r: Vec<Fx> = Vec::new();
    let mut i: usize = 0;
    while i < a.len()
        invariant
            i <= a@.len(),
            a@.len() == b@.len(),
            r@.len() == i,
            forall|j: int| 0 <= j < i ==> (#[trigger] r@[j])@ == fx_add_s((a@[j])@, (b@[j])@),
        decreases a@.len() - i,
    {
        r.push(a[i].add(b[i]));
        i = i + 1;
    }
    proof {
        assert(r.deep_view() =~= seq_add_vs(a.deep_view(), b.deep_view()));
    }
    r
}

/// Elementwise product with a scalar, the other leaf helper of every vector
/// integrator.
pub fn vec_scalar_mul(a: &Vec<Fx>, scalar: Fx) -> (r: Vec<Fx>)
    ensures
        r.deep_view() == seq_scale_vs(a.deep_view(), scalar@),
        r@.len() == a@.len(),
{
    let mut r: Vec<Fx> = Vec::new();
    let mut i: usize = 0;
    while i < a.len()
        invariant
            i <= a@.len(),
            r@.len() == i,
            forall|j: int| 0 <= j < i ==> (#[trigger] r@[j])@ == fx_mul_s((a@[j])@, scalar@),
        decreases a@.len() - i,
    {
        r.push(a[i].mul(scalar));
        i = i + 1;
    }
    proof {
        assert(r.deep_view() =~= seq_scale_vs(a.deep_view(), scalar@));
    }
    r
}

/// Elementwise truncating division by a positive integer.
pub(crate) fn vec_div_int(a: &Vec<Fx>, k: i64) -> (r: Vec<Fx>)
    requires
        k > 0,
    ensures
        r.deep_view() == seq_divi_vs(a.deep_view(), k as int),
        r@.len() == a@.len(),
{
    let mut r: Vec<Fx> = Vec::new();
    let mut i: usize = 0;
    while i < a.len()
        invariant
            i <= a@.len(),
            k > 0,
            r@.len() == i,
            forall|j: int| 0 <= j < i ==> (#[trigger] r@[j])@ == fx_divi_s((a@[j])@, k as int),
        decreases a@.len() - i,
    {
        r.push(a[i].div_int(k));
        i = i + 1;
    }
    proof {
        assert(r.deep_view() =~= seq_divi_vs(a.deep_view(), k as int));
    }
    r
}

/// A vector of `n` copies of one value.
pub(crate) fn fill_vec(v: Fx, n: usize) -> (r: Vec<Fx>)
    ensures
        r.deep_view() == Seq::new(n as nat, |i: int| v@),
        r@.len() == n,
{
    let mut r: Vec<Fx> = Vec::new();
    let mut i: usize = 0;
    while i < n
        invariant
            i <= n,
            r@.len() == i,
            forall|j: int| 0 <= j < i ==> (#[trigger] r@[j])@ == v@,
        decreases n - i,
    {
        r.push(v);
        i = i + 1;
    }
    proof {
        assert(r.deep_view() =~= Seq::new(n as nat, |i: int| v@));
    }
    r
}

/// The step a range divided into `n` pieces gives: `(b - a) / n`, truncating.
pub(crate) fn step_from_range(a: Fx, b: Fx, n: usize) -> (h: Fx)
    requires
        n > 0,
    ensures
        h@ == fx_divi_s(fx_sub_s(b@, a@), n as int),
{
    let d = b.sub(a);
    let q: i128 = (d.raw() as i128) / (n as i128);
    Fx::clamp128(q)
}

} // verus!
