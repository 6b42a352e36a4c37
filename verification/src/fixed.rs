//! A saturating decimal fixed-point scalar.
//!
//! A [`Fx`] stores a real quantity as a signed multiple of `10^-12`: the raw
//! integer `r` stands for the number `r / FX_SCALE`.  Every arithmetic
//! operation truncates toward zero where it divides and saturates at
//! [`FX_MAX_RAW`] / [`FX_MIN_RAW`] where it would leave the representable
//! range, and each operation's contract equates its result with a spec-level
//! function of the operands, so that callers can reason about whole
//! computations exactly.

use vstd::prelude::*;

verus! {

/// Number of raw units in one; the stored integer counts multiples of
/// `1 / FX_SCALE`.
pub const FX_SCALE: i64 = 1_000_000_000_000;

/// Largest raw value a fixed-point number holds.
pub const FX_MAX_RAW: i64 = 0x7fff_ffff_ffff_ffff;

/// Smallest raw value a fixed-point number holds.  The range is symmetric, so
/// negation and absolute value are total.
pub const FX_MIN_RAW: i64 = -0x7fff_ffff_ffff_ffff;

/// Clamp a mathematical integer into the representable raw range.
pub open spec fn fx_sat(v: int) -> int {
    if v > FX_MAX_RAW as int {
        FX_MAX_RAW as int
    } else if v < FX_MIN_RAW as int {
        FX_MIN_RAW as int
    } else {
        v
    }
}

/// Truncating (round-toward-zero) division, the division the machine performs
/// on signed integers.
pub open spec fn tdiv(a: int, b: int) -> int {
    if a >= 0 {
        a / b
    } else {
        -((-a) / b)
    }
}

/// Absolute value of a mathematical integer.
pub open spec fn abs_i(a: int) -> int {
    if a >= 0 {
        a
    } else {
        -a
    }
}

/// Saturating fixed-point addition.
pub open spec fn fx_add_s(a: int, b: int) -> int {
    fx_sat(a + b)
}

/// Saturating fixed-point subtraction.
pub open spec fn fx_sub_s(a: int, b: int) -> int {
    fx_sat(a - b)
}

/// Fixed-point negation; total on the symmetric range.
pub open spec fn fx_neg_s(a: int) -> int {
    fx_sat(-a)
}

/// Saturating fixed-point multiplication: the exact product rescaled by
/// `FX_SCALE` with truncation toward zero.
pub open spec fn fx_mul_s(a: int, b: int) -> int {
    fx_sat(tdiv(a * b, FX_SCALE as int))
}

/// Saturating fixed-point division: the exact quotient rescaled by
/// `FX_SCALE` with truncation toward zero.
pub open spec fn fx_div_s(a: int, b: int) -> int {
    fx_sat(tdiv(a * FX_SCALE, b))
}

/// Saturating multiplication of a fixed-point value by a plain integer.
pub open spec fn fx_muli_s(a: int, k: int) -> int {
    fx_sat(a * k)
}

/// Division of a fixed-point value by a plain integer, truncating toward zero.
pub open spec fn fx_divi_s(a: int, k: int) -> int {
    fx_sat(tdiv(a, k))
}

/// Saturating scaling of a fixed-point value by the exact rational `p / q`.
pub open spec fn fx_mulfrac_s(a: int, p: int, q: int) -> int {
    fx_sat(tdiv(a * p, q))
}

/// Fixed-point absolute value; total on the symmetric range.
pub open spec fn fx_abs_s(a: int) -> int {
    fx_sat(abs_i(a))
}

/// The product of two raw values fits comfortably inside `i128`.
proof fn lemma_i64_mul_fits_i128(a: int, b: int)
    requires
        -0x8000_0000_0000_0000 <= a <= 0x7fff_ffff_ffff_ffff,
        -0x8000_0000_0000_0000 <= b <= 0x7fff_ffff_ffff_ffff,
    ensures
        -0x4000_0000_0000_0000_0000_0000_0000_0000 <= a * b
            <= 0x4000_0000_0000_0000_0000_0000_0000_0000,
{
    assert(-0x4000_0000_0000_0000_0000_0000_0000_0000 <= a * b
        <= 0x4000_0000_0000_0000_0000_0000_0000_0000) by (nonlinear_arith)
        requires
            -0x8000_0000_0000_0000 <= a <= 0x7fff_ffff_ffff_ffff,
            -0x8000_0000_0000_0000 <= b <= 0x7fff_ffff_ffff_ffff,
    ;
}

/// A saturating decimal fixed-point number: the raw integer `r` stands for
/// the real quantity `r / FX_SCALE`.
#[derive(Clone, Copy, Debug, PartialEq, Eq, Structural)]
pub struct Fx {
    raw: i64,
}

impl View for Fx {
    type V = int;

    closed spec fn view(&self) -> int {
        self.raw as int
    }
}

impl DeepView for Fx {
    type V = int;

    open spec fn deep_view(&self) -> int {
        self@
    }
}

impl Fx {
    /// The raw value stays inside the symmetric range, which keeps negation
    /// and absolute value total.
    #[verifier::type_invariant]
    pub closed spec fn inv(self) -> bool {
        FX_MIN_RAW as int <= self.raw as int
    }

    /// Build a value from its raw count of `1 / FX_SCALE` units, clamped into
    /// the symmetric range.
    pub fn from_raw(v: i64) -> (r: Fx)
        ensures
            r@ == fx_sat(v as int),
    {
        if v < FX_MIN_RAW {
            Fx { raw: FX_MIN_RAW }
        } else {
            Fx { raw: v }
        }
    }

    /// Build a value representing the plain integer `n`, saturating.
    pub fn from_int(n: i64) -> (r: Fx)
        ensures
            r@ == fx_sat(n * FX_SCALE),
    {
        proof {
            lemma_i64_mul_fits_i128(n as int, FX_SCALE as int);
        }
        let p: i128 = (n as i128) * (FX_SCALE as i128);
        Fx::clamp128(p)
    }

    /// The zero value.
    pub fn zero() -> (r: Fx)
        ensures
            r@ == 0,
    {
        Fx { raw: 0 }
    }

    /// The raw count of `1 / FX_SCALE` units.
    pub fn raw(self) -> (r: i64)
        ensures
            r as int == self@,
            FX_MIN_RAW as int <= r as int,
    {
        proof {
            use_type_invariant(&self);
        }
        self.raw
    }

    /// Clamp an `i128` into the raw range.
    pub(crate) fn clamp128(v: i128) -> (r: Fx)
        ensures
            r@ == fx_sat(v as int),
    {
        if v > FX_MAX_RAW as i128 {
            Fx { raw: FX_MAX_RAW }
        } else if v < FX_MIN_RAW as i128 {
            Fx { raw: FX_MIN_RAW }
        } else {
            Fx { raw: v as i64 }
        }
    }

    /// Saturating addition.
    pub fn add(self, rhs: Fx) -> (r: Fx)
        ensures
            r@ == fx_add_s(self@, rhs@),
    {
        proof {
            use_type_invariant(&self);
            use_type_invariant(&rhs);
        }
        let s: i128 = (self.raw as i128) + (rhs.raw as i128);
        Fx::clamp128(s)
    }

    /// Saturating subtraction.
    pub fn sub(self, rhs: Fx) -> (r: Fx)
        ensures
            r@ == fx_sub_s(self@, rhs@),
    {
        proof {
            use_type_invariant(&self);
            use_type_invariant(&rhs);
        }
        let s: i128 = (self.raw as i128) - (rhs.raw as i128);
        Fx::clamp128(s)
    }

    /// Negation; exact, since the range is symmetric.
    pub fn neg(self) -> (r: Fx)
        ensures
            r@ == fx_neg_s(self@),
    {
        proof {
            use_type_invariant(&self);
        }
        Fx { raw: -self.raw }
    }

    /// Absolute value; exact, since the range is symmetric.
    pub fn abs(self) -> (r: Fx)
        ensures
            r@ == fx_abs_s(self@),
    {
        proof {
            use_type_invariant(&self);
        }
        if self.raw < 0 {
            Fx { raw: -self.raw }
        } else {
            Fx { raw: self.raw }
        }
    }

    /// Saturating multiplication with rescaling.
    pub fn mul(self, rhs: Fx) -> (r: Fx)
        ensures
            r@ == fx_mul_s(self@, rhs@),
    {
        proof {
            use_type_invariant(&self);
            use_type_invariant(&rhs);
            lemma_i64_mul_fits_i128(self.raw as int, rhs.raw as int);
        }
        let p: i128 = (self.raw as i128) * (rhs.raw as i128);
        let q: i128 = p / (FX_SCALE as i128);
        Fx::clamp128(q)
    }

    /// Saturating division with rescaling, by a positive divisor.
    pub fn div(self, rhs: Fx) -> (r: Fx)
        requires
            rhs@ > 0,
        ensures
            r@ == fx_div_s(self@, rhs@),
    {
        proof {
            use_type_invariant(&self);
            use_type_invariant(&rhs);
            lemma_i64_mul_fits_i128(self.raw as int, FX_SCALE as int);
        }
        let p: i128 = (self.raw as i128) * (FX_SCALE as i128);
        let q: i128 = p / (rhs.raw as i128);
        Fx::clamp128(q)
    }

    /// Saturating multiplication by a plain integer.
    pub fn mul_int(self, k: i64) -> (r: Fx)
        ensures
            r@ == fx_muli_s(self@, k as int),
    {
        proof {
            use_type_invariant(&self);
            lemma_i64_mul_fits_i128(self.raw as int, k as int);
        }
        let p: i128 = (self.raw as i128) * (k as i128);
        Fx::clamp128(p)
    }

    /// Division by a positive plain integer, truncating toward zero.
    pub fn div_int(self, k: i64) -> (r: Fx)
        requires
            k > 0,
        ensures
            r@ == fx_divi_s(self@, k as int),
    {
        proof {
            use_type_invariant(&self);
        }
        let q: i128 = (self.raw as i128) / (k as i128);
        Fx::clamp128(q)
    }

    /// Saturating scaling by the exact rational `p / q`, `q` positive.
    pub fn mul_frac(self, p: i64, q: i64) -> (r: Fx)
        requires
            q > 0,
        ensures
            r@ == fx_mulfrac_s(self@, p as int, q as int),
    {
        proof {
            use_type_invariant(&self);
            lemma_i64_mul_fits_i128(self.raw as int, p as int);
        }
        let prod: i128 = (self.raw as i128) * (p as i128);
        let quot: i128 = prod / (q as i128);
        Fx::clamp128(quot)
    }

    /// Strict comparison.
    pub fn lt(self, rhs: Fx) -> (r: bool)
        ensures
            r == (self@ < rhs@),
    {
        self.raw < rhs.raw
    }

    /// Non-strict comparison.
    pub fn le(self, rhs: Fx) -> (r: bool)
        ensures
            r == (self@ <= rhs@),
    {
        self.raw <= rhs.raw
    }
}

} // verus!
