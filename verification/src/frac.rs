use vstd::prelude::*;

verus! {

/// An exact rational number `num / den`. Well-formed values keep `den`
/// strictly positive; the numerator carries the sign.
///
/// The simulation never rounds: yields, energies, efficiencies and risk
/// scores are all produced as `Ratio` values whose mathematical meaning is
/// given by `frac()` and compared with the `frac_*` relations below.
#[derive(Clone, Copy, Debug, PartialEq, Eq, Structural)]
pub struct Ratio {
    pub num: i128,
    pub den: i128,
}

impl Ratio {
    /// The mathematical value, as an unbounded (numerator, denominator) pair.
    pub open spec fn frac(self) -> (int, int) {
        (self.num as int, self.den as int)
    }

    /// The denominator is strictly positive.
    pub open spec fn wf(self) -> bool {
        self.den > 0
    }
}

/// `a` and `b` denote the same rational. Valid comparison whenever both
/// denominators are positive.
pub open spec fn frac_eq(a: (int, int), b: (int, int)) -> bool {
    a.0 * b.1 == b.0 * a.1
}

/// `a` denotes a strictly smaller rational than `b` (both denominators
/// positive).
pub open spec fn frac_lt(a: (int, int), b: (int, int)) -> bool {
    a.0 * b.1 < b.0 * a.1
}

/// `a` denotes a rational no greater than `b` (both denominators positive).
pub open spec fn frac_le(a: (int, int), b: (int, int)) -> bool {
    a.0 * b.1 <= b.0 * a.1
}

/// The quotient `a / b` of two fractions, as a fraction. Meaningful when
/// `b`'s numerator is positive, which keeps the result's denominator
/// positive.
pub open spec fn frac_div(a: (int, int), b: (int, int)) -> (int, int) {
    (a.0 * b.1, a.1 * b.0)
}

/// Ordering of fractions is transitive: `a <= b` and `b < c` give `a < c`
/// when all three denominators are positive.
pub proof fn lemma_frac_le_lt_trans(a: (int, int), b: (int, int), c: (int, int))
    by (nonlinear_arith)
    requires
        a.1 > 0,
        b.1 > 0,
        c.1 > 0,
        frac_le(a, b),
        frac_lt(b, c),
    ensures
        frac_lt(a, c),
{
}

} // verus!
