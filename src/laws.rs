use vstd::arithmetic::div_mod::{
    lemma_add_mod_noop,
    lemma_mod_bound,
    lemma_mul_mod_noop_left,
    lemma_sub_mod_noop_right,
};
use vstd::arithmetic::mul::{lemma_mul_is_distributive_add, lemma_mul_is_distributive_add_other_way};
use vstd::prelude::*;

use crate::element::{reduce, torus_add, torus_close, torus_mul, torus_neg, TorusElement, TORUS_MODULUS};

verus! {

/// `x` added to itself `k` times, starting from the identity.
pub open spec fn torus_repeat(x: int, k: nat) -> int
    decreases k,
{
    if k == 0 {
        reduce(0)
    } else {
        torus_add(torus_repeat(x, (k - 1) as nat), x)
    }
}

/// Reduction lands in one turn, `0..TORUS_MODULUS`, for every input.
pub proof fn lemma_reduce_in_range(raw: int)
    ensures
        0 <= reduce(raw) < TORUS_MODULUS,
{
    lemma_mod_bound(raw, TORUS_MODULUS as int);
}

/// Equal points compare equal under `eq`, so each identity below also holds
/// as the tolerant equality.
pub proof fn lemma_close_reflexive(a: TorusElement)
    ensures
        torus_close(a@, a@),
{
}

/// Addition is associative.
pub proof fn lemma_add_associative(a: TorusElement, b: TorusElement, c: TorusElement)
    ensures
        torus_add(torus_add(a@, b@), c@) == torus_add(a@, torus_add(b@, c@)),
{
    let m = TORUS_MODULUS as int;
    lemma_add_mod_noop(a@ + b@, c@ as int, m);
    lemma_add_mod_noop(a@ as int, b@ + c@, m);
}

/// The point zero, which `TorusElement::new(0)` gives, is a two-sided
/// identity of addition.
pub proof fn lemma_add_identity(a: TorusElement)
    ensures
        torus_add(a@, reduce(0)) == a@,
        torus_add(reduce(0), a@) == a@,
{
}

/// An element plus its inverse is the identity.
pub proof fn lemma_add_inverse(a: TorusElement)
    ensures
        torus_add(a@, torus_neg(a@)) == reduce(0),
{
    lemma_add_mod_noop(a@ as int, -a@, TORUS_MODULUS as int);
}

/// Addition is commutative.
pub proof fn lemma_add_commutative(a: TorusElement, b: TorusElement)
    ensures
        torus_add(a@, b@) == torus_add(b@, a@),
{
}

/// For `k >= 0` the action of `k` is the sum of `k` copies of the element;
/// in particular `0` gives the identity and `1` the element itself.
pub proof fn lemma_mul_is_repeated_add(a: TorusElement, k: nat)
    ensures
        torus_mul(a@, k as int) == torus_repeat(a@, k),
        torus_mul(a@, 0) == reduce(0),
        torus_mul(a@, 1) == a@,
    decreases k,
{
    if k > 0 {
        lemma_mul_is_repeated_add(a, (k - 1) as nat);
        let x = a@ as int;
        lemma_mul_is_distributive_add(x, k - 1, 1);
        lemma_add_mod_noop(x * (k - 1), x, TORUS_MODULUS as int);
    }
}

/// Acting by `-k` is the inverse of acting by `k`, and is acting by `k` on
/// the inverse of the element.
pub proof fn lemma_mul_negated_scalar(a: TorusElement, k: int)
    ensures
        torus_mul(a@, -k) == torus_neg(torus_mul(a@, k)),
        torus_mul(a@, -k) == torus_mul(torus_neg(a@), k),
{
    let x = a@ as int;
    let m = TORUS_MODULUS as int;
    assert(x * (-k) == -(x * k) && (-x) * k == -(x * k)) by (nonlinear_arith);
    lemma_sub_mod_noop_right(0, x * k, m);
    lemma_mul_mod_noop_left(-x, k, m);
}

/// The action of an integer distributes over group addition.
pub proof fn lemma_mul_distributes_over_add(a: TorusElement, b: TorusElement, k: int)
    ensures
        torus_mul(torus_add(a@, b@), k) == torus_add(torus_mul(a@, k), torus_mul(b@, k)),
{
    let m = TORUS_MODULUS as int;
    let x = a@ as int;
    let y = b@ as int;
    lemma_mul_mod_noop_left(x + y, k, m);
    lemma_mul_is_distributive_add_other_way(k, x, y);
    lemma_add_mod_noop(x * k, y * k, m);
}

/// The action distributes over the addition of integers.
pub proof fn lemma_mul_distributes_over_scalar_add(a: TorusElement, k: int, l: int)
    ensures
        torus_mul(a@, k + l) == torus_add(torus_mul(a@, k), torus_mul(a@, l)),
{
    let x = a@ as int;
    lemma_mul_is_distributive_add(x, k, l);
    lemma_add_mod_noop(x * k, x * l, TORUS_MODULUS as int);
}

} // verus!
