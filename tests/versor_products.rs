use pga3::{AnyKVector, Bivector, Motor, OddVersor, Trivector, Vector, Versor};

#[test]
fn geo_motor_bivector() {
    let m = Motor::from([-1, 0, 0, 1, -2, 0, 0, 2]);
    let bv = Bivector::from([-5, 10, -5, 15, 10, 5]);
    let expected = Versor::Even(Motor::from([5, -5, -15, 5, -5, -15, 15, 25]));
    let expected_reverse = Versor::Even(Motor::from([5, 15, -5, 5, -5, -45, -5, 25]));

    let m = Versor::Even(m);
    let bv = Versor::KVec(AnyKVector::Two(bv));
    assert_eq!(m.geo(&bv), expected);
    assert_eq!(bv.geo(&m), expected_reverse);
}

#[test]
fn geo_motor_vector() {
    let m = Motor::from([-1, 0, 0, 1, -2, 0, 0, 2]);
    let v = Vector::from([1, 2, 3, 4]);
    let expected = Versor::Odd(OddVersor::from([-1, 1, -5, -6, 1, -6, -10, -2]));
    let expected_reverse = Versor::Odd(OddVersor::from([-1, -5, -1, -2, 1, -2, -2, 10]));

    let m = Versor::Even(m);
    let v = Versor::KVec(AnyKVector::One(v));
    assert_eq!(m.geo(&v), expected);
    assert_eq!(v.geo(&m), expected_reverse);
}

#[test]
fn geo_oddversor_vector() {
    let ov = OddVersor::from([-1, 1, -5, -6, 1, -6, -10, -2]);
    let v = Vector::from([1, 2, 3, 4]);
    let expected = Versor::Even(Motor::from([-14, 0, 0, 14, -28, 0, 0, 28]));
    let expected_reverse = Versor::Even(Motor::from([-14, 6, 4, -12, -24, 32, -4, -28]));

    let ov = Versor::Odd(ov);
    let v = Versor::KVec(AnyKVector::One(v));
    assert_eq!(ov.geo(&v), expected);
    assert_eq!(v.geo(&ov), expected_reverse);
}

#[test]
fn geo_oddversor_bivector() {
    let ov = OddVersor::from([-1, 1, -5, -6, 1, -6, -10, -2]);
    let bv = Bivector::from([-5, 10, -5, 15, 10, 5]);
    let expected = Versor::Odd(OddVersor::from([-40, -30, 10, -30, 40, -30, 20, 60]));
    let expected_reverse = Versor::Odd(OddVersor::from([50, 10, 0, -90, 40, 80, -40, -170]));

    let ov = Versor::Odd(ov);
    let bv = Versor::KVec(AnyKVector::Two(bv));
    assert_eq!(ov.geo(&bv), expected);
    assert_eq!(bv.geo(&ov), expected_reverse);
}

#[test]
fn translate_plane() {
    let p = AnyKVector::One(Vector::from([1, 0, 0, 0]));
    let dir = Trivector::direction(5, 0, 0);
    let expected = Vector::from([1, 0, 0, 5]);
    let m = Motor::translation(&dir);
    assert_eq!(m.sandwich(&p), Versor::KVec(AnyKVector::One(expected.scale(4))));
}
