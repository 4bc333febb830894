use vstd::arithmetic::div_mod::{lemma_mod_multiples_vanish, lemma_mul_mod_noop_left};
use vstd::prelude::*;

verus! {

/// Number of points that the torus is cut into. An element is held as a whole
/// number of units in `0..TORUS_MODULUS`, one unit being `1 / TORUS_MODULUS` of
/// a turn; the real number `x` stands as `x * TORUS_MODULUS` units.
pub const TORUS_MODULUS: u64 = 0x1_0000_0000;

/// Tolerance of the wraparound equality, in units. One millionth of a turn is
/// 4294.97 units, so a distance below it is a distance below this bound.
pub const EPSILON: u64 = 4295;

/// Reduction modulo one turn (the Euclidean remainder: never negative).
pub open spec fn reduce(raw: int) -> int {
    raw % (TORUS_MODULUS as int)
}

/// Group addition on the torus.
pub open spec fn torus_add(x: int, y: int) -> int {
    reduce(x + y)
}

/// Additive inverse on the torus.
pub open spec fn torus_neg(x: int) -> int {
    reduce(-x)
}

/// The action of the integer `k` on the point `x`.
pub open spec fn torus_mul(x: int, k: int) -> int {
    reduce(x * k)
}

/// Whether two points compare equal: their plain distance is below the
/// tolerance, or one turn less that distance is.
pub open spec fn torus_close(x: int, y: int) -> bool {
    let d = if x >= y {
        x - y
    } else {
        y - x
    };
    d < EPSILON || TORUS_MODULUS - d < EPSILON
}

/// A point of the real torus R/Z.
#[derive(Debug, Clone, Copy)]
pub struct TorusElement {
    /// Position on the circle, in units of `1 / TORUS_MODULUS` of a turn.
    pub value: u32,
}

impl View for TorusElement {
    type V = int;

    open spec fn view(&self) -> int {
        self.value as int
    }
}

impl TorusElement {
    /// The element that the fixed-point number `raw / TORUS_MODULUS` stands
    /// for, reduced modulo one turn whatever its sign or size.
    pub fn new(raw: i64) -> (r: TorusElement)
        ensures
            r@ == reduce(raw as int),
    {
        if 0 <= raw && raw < TORUS_MODULUS as i64 {
            TorusElement { value: raw as u32 }
        } else {
            let reduced = raw.checked_rem_euclid(TORUS_MODULUS as i64).unwrap();
            TorusElement { value: reduced as u32 }
        }
    }

    /// Group addition.
    pub fn add(self, other: TorusElement) -> (r: TorusElement)
        ensures
            r@ == torus_add(self@, other@),
    {
        let sum = (self.value as u64 + other.value as u64) % TORUS_MODULUS;
        TorusElement { value: sum as u32 }
    }

    /// The additive inverse.
    pub fn neg(self) -> (r: TorusElement)
        ensures
            r@ == torus_neg(self@),
    {
        proof {
            lemma_mod_multiples_vanish(1, -self@, TORUS_MODULUS as int);
        }
        let inverse = (TORUS_MODULUS - self.value as u64) % TORUS_MODULUS;
        TorusElement { value: inverse as u32 }
    }

    /// Subtraction: the sum with the inverse of `rhs`.
    pub fn sub(self, rhs: TorusElement) -> (r: TorusElement)
        ensures
            r@ == torus_add(self@, torus_neg(rhs@)),
    {
        self.add(rhs.neg())
    }

    /// The element times the integer `k`. For a negative `k` the inverse of
    /// the element is multiplied by `-k`.
    pub fn mul(self, k: i64) -> (r: TorusElement)
        ensures
            r@ == torus_mul(self@, k as int),
    {
        if k < 0 {
            let inverse = self.neg();
            let magnitude = (0 - k as i128) as u128;
            proof {
                let x = self@;
                let m = magnitude as int;
                lemma_mul_mod_noop_left(-x, m, TORUS_MODULUS as int);
                assert((-x) * m == x * k) by (nonlinear_arith)
                    requires
                        m == -k,
                ;
                assert(inverse.value * m < 0x1_0000_0000_0000_0000_0000_0000) by (nonlinear_arith)
                    requires
                        inverse.value < 0x1_0000_0000,
                        m <= 0x8000_0000_0000_0000,
                ;
            }
            let product = (inverse.value as u128 * magnitude) % (TORUS_MODULUS as u128);
            TorusElement { value: product as u32 }
        } else {
            assert(self.value * k < 0x1_0000_0000_0000_0000_0000_0000) by (nonlinear_arith)
                requires
                    self.value < 0x1_0000_0000,
                    0 <= k < 0x8000_0000_0000_0000,
            ;
            let product = (self.value as u128 * k as u128) % (TORUS_MODULUS as u128);
            TorusElement { value: product as u32 }
        }
    }

    /// The integer `k` times the element; the same action as `mul`.
    pub fn scale(k: i64, t: TorusElement) -> (r: TorusElement)
        ensures
            r@ == torus_mul(t@, k as int),
    {
        t.mul(k)
    }

    /// Equality up to the tolerance, across the point where the circle wraps.
    pub fn eq(&self, other: &TorusElement) -> (r: bool)
        ensures
            r == torus_close(self@, other@),
    {
        let diff: u64 = if self.value >= other.value {
            (self.value - other.value) as u64
        } else {
            (other.value - self.value) as u64
        };
        diff < EPSILON || TORUS_MODULUS - diff < EPSILON
    }

    /// The negation of `eq`.
    pub fn ne(&self, other: &TorusElement) -> (r: bool)
        ensures
            r == !torus_close(self@, other@),
    {
        !self.eq(other)
    }
}

} // verus!
