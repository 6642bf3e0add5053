use pga3::{AnyKVector, Bivector, Pseudoscalar, Trivector, Vector};

fn one(v: Vector) -> AnyKVector {
    AnyKVector::One(v)
}

fn two(b: Bivector) -> AnyKVector {
    AnyKVector::Two(b)
}

fn three(t: Trivector) -> AnyKVector {
    AnyKVector::Three(t)
}

#[test]
fn outer_vector_vector() {
    let v1 = Vector::from([2, 3, 4, 1]);
    let v2 = Vector::from([3, 2, 1, 4]);
    if let AnyKVector::Two(bv) = one(v1).outer(&one(v2)) {
        assert_eq!(bv, Bivector::from([-5, 10, -5, -5, -10, -15]));
    } else {
        panic!("v1 ^ v2 was not a bivector");
    }
}

#[test]
fn outer_vector_bivector() {
    let v = Vector::from([1, 2, 3, 4]);
    let bv = Bivector::from([1, 2, 3, 4, 5, 6]);

    if let AnyKVector::Three(tv) = one(v).outer(&two(bv)) {
        assert_eq!(tv, Trivector::from([10, -15, -2, -7]));
    } else {
        panic!("v ^ bv was not a trivector");
    }

    if let AnyKVector::Three(tv) = two(bv).outer(&one(v)) {
        assert_eq!(tv, Trivector::from([10, -15, -2, -7]));
    } else {
        panic!("bv ^ v was not a trivector");
    }
}

#[test]
fn outer_bivector_bivector() {
    let bv1 = Bivector::from([1, 2, 3, 4, 5, 6]);
    let bv2 = Bivector::from([6, 5, 4, 3, 2, 1]);

    if let AnyKVector::Four(Pseudoscalar(n)) = two(bv1).outer(&two(bv2)) {
        assert_eq!(n, 91);
    } else {
        panic!("bv1 ^ bv2 was not a pseudoscalar");
    }

    if let AnyKVector::Four(Pseudoscalar(n)) = two(bv2).outer(&two(bv1)) {
        assert_eq!(n, 91);
    } else {
        panic!("bv2 ^ bv1 was not a pseudoscalar");
    }
}

#[test]
fn outer_vector_trivector() {
    let v = Vector::from([1, 2, 3, 4]);
    let tv = Trivector::from([4, 3, 2, 1]);

    if let AnyKVector::Four(Pseudoscalar(n)) = one(v).outer(&three(tv)) {
        assert_eq!(n, 26);
    } else {
        panic!("v ^ tv was not a pseudoscalar");
    }

    if let AnyKVector::Four(Pseudoscalar(n)) = three(tv).outer(&one(v)) {
        assert_eq!(n, -26);
    } else {
        panic!("tv ^ v was not a pseudoscalar");
    }
}

#[test]
fn outer_zeros() {
    let bv = Bivector::from([1, 2, 3, 4, 5, 6]);
    let tv = Trivector::from([1, 2, 3, 4]);

    if let AnyKVector::Zero(n) = two(bv).outer(&three(tv)) {
        assert_eq!(n, 0);
    } else {
        panic!("bv ^ tv was not a scalar");
    }

    if let AnyKVector::Zero(n) = three(tv).outer(&two(bv)) {
        assert_eq!(n, 0);
    } else {
        panic!("tv ^ bv was not a scalar");
    }

    if let AnyKVector::Zero(n) = three(tv).outer(&three(tv)) {
        assert_eq!(n, 0);
    } else {
        panic!("tv ^ tv was not a scalar");
    }
}

#[test]
fn undual_inverse_of_dual() {
    let v = one(Vector::from([1, 2, 3, 4]));
    let bv = two(Bivector::from([6, 5, 4, 3, 2, 1]));
    let tv = three(Trivector::from([1, 2, 3, 4]));

    assert_eq!(v.dual().undual(), v);
    assert_eq!(v.undual().dual(), v);
    assert_eq!(bv.dual().undual(), bv);
    assert_eq!(bv.undual().dual(), bv);
    assert_eq!(tv.dual().undual(), tv);
    assert_eq!(tv.undual().dual(), tv);
}

#[test]
fn dual_vector_trivector() {
    let v = one(Vector::from([1, 2, 3, 4]));
    assert_eq!(v.dual(), three(Trivector::from([4, 1, 2, 3])));

    let tv = three(Trivector::from([1, 2, 3, 4]));
    assert_eq!(tv.dual(), one(Vector::from([-2, -3, -4, -1])));
}

#[test]
fn dual_bivector() {
    let bv = two(Bivector::from([6, 5, 4, 3, 2, 1]));
    assert_eq!(bv.dual(), two(Bivector::from([1, 2, 3, 4, 5, 6])));
}

#[test]
fn regressive_zero() {
    let v = one(Vector::from([1, 2, 3, 4]));
    let bv = two(Bivector::from([6, 5, 4, 3, 2, 1]));

    if let AnyKVector::Zero(n) = v.regressive(&bv) {
        assert_eq!(n, 0);
    } else {
        panic!("v & bv was not a scalar");
    }
}

#[test]
fn regressive_bivector_trivector() {
    let bv = two(Bivector::from([6, 5, 4, 3, 2, 1]));
    let tv = three(Trivector::from([1, 2, 3, 4]));

    if let AnyKVector::One(v) = tv.regressive(&bv) {
        assert_eq!(v, Vector::from([5, -2, 3, -16]));
    } else {
        panic!("tv & bv was not a vector");
    }

    if let AnyKVector::One(v) = bv.regressive(&tv) {
        assert_eq!(v, Vector::from([5, -2, 3, -16]));
    } else {
        panic!("bv & tv was not a vector");
    }
}

#[test]
fn regressive_trivector_trivector() {
    let tv1 = three(Trivector::from([1, 2, 3, 4]));
    let tv2 = three(Trivector::from([4, 3, 2, 1]));

    if let AnyKVector::Two(bv) = tv1.regressive(&tv2) {
        assert_eq!(bv, Bivector::from([-15, -10, -5, -5, 10, -5]));
    } else {
        panic!("tv1 & tv2 was not a vector");
    }
}
