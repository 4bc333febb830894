use vstd::prelude::*;

use crate::element::{reduce, TorusElement};
use crate::random::draw_units;

verus! {

/// A polynomial of `T_N[X]`, the torus modulo `X^m + 1`: `n` coefficients,
/// the one at index `i` being that of `X^i`.
#[derive(Debug)]
pub struct TorusPolynominal {
    /// Number of coefficients.
    pub n: usize,
    /// Exponent `m` of the defining relation `X^m + 1`.
    pub m: usize,
    pub coeffs: Vec<TorusElement>,
}

impl TorusPolynominal {
    /// There is exactly one coefficient per degree.
    pub open spec fn wf(&self) -> bool {
        self.coeffs@.len() == self.n
    }

    /// The zero polynomial with `degree` coefficients.
    pub fn zero(degree: usize, cyclotomic_index: usize) -> (r: TorusPolynominal)
        ensures
            r.wf(),
            r.n == degree,
            r.m == cyclotomic_index,
            forall|i: int| 0 <= i < degree ==> #[trigger] r.coeffs@[i]@ == reduce(0),
    {
        let mut coeffs: Vec<TorusElement> = Vec::new();
        let mut i: usize = 0;
        while i < degree
            invariant
                i <= degree,
                coeffs@.len() == i,
                forall|j: int| 0 <= j < i ==> #[trigger] coeffs@[j]@ == 0,
            decreases degree - i,
        {
            coeffs.push(TorusElement { value: 0 });
            i = i + 1;
        }
        TorusPolynominal { n: degree, m: cyclotomic_index, coeffs }
    }

    /// The polynomial with the given coefficients; its degree is their count.
    pub fn from_coeffs(input_coeffs: Vec<TorusElement>, cyclotomic_index: usize) -> (r:
        TorusPolynominal)
        ensures
            r.wf(),
            r.coeffs@ == input_coeffs@,
            r.n == input_coeffs@.len(),
            r.m == cyclotomic_index,
    {
        let n = input_coeffs.len();
        TorusPolynominal { n, m: cyclotomic_index, coeffs: input_coeffs }
    }

    /// The polynomial whose coefficient of `X^i` is the point `units[i]`, in
    /// units; its degree is their count.
    pub fn from_units(units: Vec<u32>, cyclotomic_index: usize) -> (r: TorusPolynominal)
        ensures
            r.wf(),
            r.n == units@.len(),
            r.m == cyclotomic_index,
            forall|i: int| 0 <= i < units@.len() ==> #[trigger] r.coeffs@[i]@ == units@[i],
    {
        let mut coeffs: Vec<TorusElement> = Vec::new();
        let mut i: usize = 0;
        while i < units.len()
            invariant
                i <= units@.len(),
                coeffs@.len() == i,
                forall|j: int| 0 <= j < i ==> #[trigger] coeffs@[j]@ == units@[j],
            decreases units@.len() - i,
        {
            coeffs.push(TorusElement { value: units[i] });
            i = i + 1;
        }
        TorusPolynominal { n: units.len(), m: cyclotomic_index, coeffs }
    }

    /// A polynomial with `degree` coefficients drawn independently and
    /// uniformly from the torus: the one that `from_units` builds from
    /// `degree` drawn positions.
    pub fn new_random(degree: usize, cyclotomic_index: usize) -> (r: TorusPolynominal)
        ensures
            r.wf(),
            r.n == degree,
            r.m == cyclotomic_index,
    {
        TorusPolynominal::from_units(draw_units(degree), cyclotomic_index)
    }
}

} // verus!
