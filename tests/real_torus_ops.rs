use torus::{TorusElement, TORUS_MODULUS};

fn at(x: f64) -> TorusElement {
    TorusElement { value: (x * TORUS_MODULUS as f64).round() as u32 }
}

fn turns(t: TorusElement) -> f64 {
    t.value as f64 / TORUS_MODULUS as f64
}

#[test]
fn real_torus_tests_ops_test_closure() {
    let t1 = at(0.45);
    let t2 = at(0.95);
    let result = t1.add(t2);
    assert!(
        (turns(result) < 1.0) && (turns(result) > 0.0),
        "Closure has failed: lhs={:?}, rhs={:?}, result={:?}",
        t1,
        t2,
        result
    )
}

#[test]
fn real_torus_tests_ops_test_associativity() {
    let t1 = at(0.25);
    let t2 = at(0.85);
    let t3 = at(0.55);
    let result1 = t1.add(t2).add(t3);
    let result2 = t1.add(t2.add(t3));
    println!("result1 : {:?}", result1);
    println!("result2 : {:?}", result2);
    assert!(
        (turns(result1) - turns(result2)).abs() < 1e-6,
        "Associativity failed: lhs={:?} rhs={:?}",
        result1,
        result2,
    )
}

#[test]
fn real_torus_tests_ops_test_identity_element() {
    let t1 = at(0.567);
    let e = at(0.0);
    let result1 = t1.add(e);
    let result2 = e.add(t1);
    assert!(result1.eq(&result2), "Identity element failed: lhs={:?}, rhs={:?}", result1, result2)
}

#[test]
fn real_torus_tests_ops_test_group_inverse() {
    let t1 = at(0.55);
    let inverse_t1 = t1.neg();
    let expected = at(0.45);
    assert!(inverse_t1.eq(&expected), "Inverses failed: lhs={:?}, rhs={:?}", t1, inverse_t1);
}

#[test]
fn real_torus_tests_ops_test_torus_group_commutativity() {
    let t1 = at(0.55);
    let t2 = at(0.35);
    let result1 = t1.add(t2);
    let result2 = t2.add(t1);
    assert!(result1.eq(&result2), "Commutativity failed: lhs={:?}, rhs={:?}", result1, result2)
}

#[test]
fn real_torus_tests_ops_test_external_product() {
    let t1 = at(0.55);
    let k: i64 = 4;
    let result = t1.mul(k);
    assert!(
        result.eq(&t1.add(t1).add(t1).add(t1)),
        "External product failed: lhs={:?}, rhs={}, result{:?}",
        t1,
        k,
        result
    )
}

#[test]
fn real_torus_tests_ops_test_external_product_minus_scalar() {
    let t1 = at(0.55);
    let k: i64 = 4;
    let result = t1.mul(k);
    assert!(
        result.eq(&t1.add(t1).add(t1).add(t1)),
        "External product failed: lhs={:?}, rhs={}, result{:?}",
        t1,
        k,
        result
    )
}

#[test]
fn real_torus_tests_ops_test_external_product_zero_scalar() {
    let t1 = at(0.5);
    let z: i64 = 0;
    let result = TorusElement::scale(z, t1);
    let expected = at(0.0);
    assert!(
        result.eq(&expected),
        "External product zero scalar failed: lhs={}, rhs={}, result={}",
        z,
        turns(t1),
        turns(result)
    )
}

#[test]
fn real_torus_tests_ops_test_external_product_one_scalar() {
    let t1 = at(0.5);
    let one_scalar: i64 = 1;
    let result = t1.mul(one_scalar);
    let expected = at(0.5);
    assert!(
        result.eq(&expected),
        "One scalar multiplication failed: lhs={} rhs={} result={} expected={}",
        turns(t1),
        one_scalar,
        turns(result),
        turns(expected)
    )
}

#[test]
fn real_torus_tests_ops_test_external_product_distributivity_over_group_addition() {
    let a = at(0.55);
    let b = at(0.85);
    let k: i64 = 10;
    let lhs = TorusElement::scale(k, a.add(b));
    let rhs = TorusElement::scale(k, a).add(TorusElement::scale(k, b));
    assert!(lhs.eq(&rhs), "Distributivity failed over group addition: lhs={}, rhs={}", turns(lhs), turns(rhs))
}

#[test]
fn real_torus_tests_ops_test_external_product_distributivity_over_scalar_addition() {
    let k: i64 = 10;
    let l: i64 = 20;
    let a = at(0.25);
    let lhs = TorusElement::scale(k + l, a);
    let rhs = TorusElement::scale(k, a).add(TorusElement::scale(l, a));
    assert!(
        lhs.eq(&rhs),
        "Scalar product distributed over scalar addition failed: lhs={}, rhs={}",
        turns(lhs),
        turns(rhs)
    )
}
