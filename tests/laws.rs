use pga3::{AnyKVector, Bivector, Motor, OddVersor, Pseudoscalar, Trivector, Vector, Versor};

#[test]
fn dual_undual_round_trip_each_grade() {
    let xs = [
        AnyKVector::One(Vector::from([-7, 0, 9, 11])),
        AnyKVector::Two(Bivector::from([3, -1, 4, -1, 5, -9])),
        AnyKVector::Three(Trivector::from([2, -6, 5, 3])),
    ];
    for x in xs {
        assert_eq!(x.dual().undual(), x);
        assert_eq!(x.undual().dual(), x);
    }
}

#[test]
fn dual_of_scalar_and_pseudoscalar() {
    assert_eq!(AnyKVector::Zero(5).dual(), AnyKVector::Four(Pseudoscalar(5)));
    assert_eq!(AnyKVector::Four(Pseudoscalar(5)).dual(), AnyKVector::Zero(5));
    assert_eq!(AnyKVector::Zero(0).dual(), AnyKVector::Zero(0));
}

#[test]
fn reverse_and_involution_twice() {
    let m = Versor::Even(Motor::from([-1, 0, 0, 1, -2, 0, 0, 2]));
    let o = Versor::Odd(OddVersor::from([-1, 1, -5, -6, 1, -6, -10, -2]));
    let b = Versor::KVec(AnyKVector::Two(Bivector::from([1, 2, 3, 4, 5, 6])));
    for x in [m, o, b] {
        assert_eq!(x.reverse().reverse(), x);
        assert_eq!(x.grade_involution().grade_involution(), x);
    }
    assert_eq!(m.reverse(), Versor::Even(Motor::from([-1, 0, 0, -1, 2, 0, 0, 2])));
    assert_eq!(
        AnyKVector::Three(Trivector::from([1, 2, 3, 4])).grade_involution(),
        AnyKVector::Three(Trivector::from([-1, -2, -3, -4]))
    );
    assert_eq!(
        AnyKVector::Two(Bivector::from([1, 2, 3, 4, 5, 6])).grade_involution(),
        AnyKVector::Two(Bivector::from([1, 2, 3, 4, 5, 6]))
    );
}

#[test]
fn outer_and_regressive_beyond_top_grade() {
    let v = AnyKVector::One(Vector::from([1, 2, 3, 4]));
    let ps = AnyKVector::Four(Pseudoscalar(3));
    let tv = AnyKVector::Three(Trivector::from([1, 2, 3, 4]));
    assert_eq!(ps.outer(&v), AnyKVector::Zero(0));
    assert_eq!(v.outer(&ps), AnyKVector::Zero(0));
    assert_eq!(ps.outer(&AnyKVector::Zero(2)), AnyKVector::Four(Pseudoscalar(6)));
    assert_eq!(v.regressive(&v), AnyKVector::Zero(0));
    assert_eq!(tv.regressive(&ps), AnyKVector::Three(Trivector::from([3, 6, 9, 12])));
}

#[test]
fn outer_snaps_vanishing_result_to_zero() {
    let v = AnyKVector::One(Vector::from([1, 2, 3, 4]));
    assert_eq!(v.outer(&v), AnyKVector::Zero(0));
    assert_eq!(AnyKVector::Zero(0).outer(&v), AnyKVector::Zero(0));
    assert_eq!(AnyKVector::Zero(2).outer(&v), AnyKVector::One(Vector::from([2, 4, 6, 8])));
}

#[test]
fn motor_canonical_forms() {
    assert_eq!(Versor::from(Motor::from([5, 0, 0, 0, 0, 0, 0, 0])), Versor::KVec(AnyKVector::Zero(5)));
    assert_eq!(
        Versor::from(Motor::from([0, 0, 0, 0, 0, 0, 0, 7])),
        Versor::KVec(AnyKVector::Four(Pseudoscalar(7)))
    );
    assert_eq!(
        Versor::from(Motor::from([0, 1, 0, 0, 0, 0, 2, 0])),
        Versor::KVec(AnyKVector::Two(Bivector::from([1, 0, 0, 0, 0, 2])))
    );
    let m = Motor::from([1, 1, 0, 0, 0, 0, 0, 0]);
    assert_eq!(Versor::from(m), Versor::Even(m));
    assert_eq!(Versor::from(Motor::from([0; 8])), Versor::KVec(AnyKVector::Zero(0)));
}

#[test]
fn odd_canonical_forms() {
    assert_eq!(Versor::from(OddVersor::from([0; 8])), Versor::KVec(AnyKVector::Zero(0)));
    assert_eq!(
        Versor::from(OddVersor::from([0, 0, 0, 0, 1, 2, 3, 4])),
        Versor::KVec(AnyKVector::Three(Trivector::from([1, 2, 3, 4])))
    );
    assert_eq!(
        Versor::from(OddVersor::from([1, 2, 3, 4, 0, 0, 0, 0])),
        Versor::KVec(AnyKVector::One(Vector::from([1, 2, 3, 4])))
    );
    let o = OddVersor::from([1, 0, 0, 0, 0, 0, 0, 1]);
    assert_eq!(Versor::from(o), Versor::Odd(o));
}

#[test]
fn translation_moves_point() {
    let m = Motor::translation(&Trivector::direction(3, 4, 5));
    let moved = m.sandwich(&AnyKVector::Three(Trivector::point(1, 2, 3)));
    let t = moved.as_trivector().unwrap();
    assert_eq!(t, Trivector::point(4, 6, 8).scale(4));
    assert_eq!((-t.e032 / t.e123, -t.e013 / t.e123, -t.e021 / t.e123), (4, 6, 8));
}

#[test]
fn translation_keeps_direction() {
    let m = Motor::translation(&Trivector::direction(3, 4, 5));
    let moved = m.sandwich(&AnyKVector::Three(Trivector::direction(1, 0, 0)));
    assert_eq!(moved, Versor::KVec(AnyKVector::Three(Trivector::from([0, -4, 0, 0]))));
}

#[test]
fn translation_motor_coefficients() {
    let m = Motor::translation(&Trivector::direction(3, 4, 5));
    assert_eq!(m, Motor::from([2, 0, 0, 0, -3, -4, -5, 0]));
}

#[test]
fn identity_sandwich_keeps_kvector() {
    let one = Motor::identity();
    let b = AnyKVector::Two(Bivector::from([1, 2, 3, 4, 5, 6]));
    assert_eq!(one.sandwich(&b), Versor::KVec(b));
    let v = AnyKVector::One(Vector::from([0, 0, 0, 0]));
    assert_eq!(one.sandwich(&v), Versor::KVec(AnyKVector::Zero(0)));
}

#[test]
fn vector_times_inverse() {
    let v = Vector::from([1, 2, 3, 4]);
    let (n, d) = v.inverse().unwrap();
    assert_eq!(d, 14);
    assert_eq!(n, v);
    let p = AnyKVector::One(v).geo(&AnyKVector::One(n));
    assert_eq!(p, Versor::KVec(AnyKVector::Zero(d)));
}

#[test]
fn ideal_elements_have_no_inverse() {
    assert_eq!(Vector::from([0, 0, 0, 4]).inverse(), None);
    assert_eq!(Trivector::direction(1, 2, 3).inverse(), None);
    assert_eq!(Bivector::from([0, 0, 0, 1, 2, 3]).inverse(), None);
}

#[test]
fn trivector_inverse() {
    let (n, d) = Trivector::from([2, 1, 1, 1]).inverse().unwrap();
    assert_eq!(n, Trivector::from([-2, -1, -1, -1]));
    assert_eq!(d, 4);
    let p = AnyKVector::Three(Trivector::from([2, 1, 1, 1])).geo(&AnyKVector::Three(n));
    assert_eq!(p.e(0b0000), 4);
}

#[test]
fn bivector_inverse() {
    let b = Bivector::from([1, 2, 3, 4, 5, 6]);
    let (n, d) = b.inverse().unwrap();
    assert_eq!(n, Bivector::from([-14, -28, -42, 112, 42, -28]));
    assert_eq!(d, 196);
    assert_eq!(AnyKVector::Two(b).geo(&AnyKVector::Two(n)), Versor::KVec(AnyKVector::Zero(196)));
}

#[test]
fn vector_product_is_inner_plus_outer() {
    let a = AnyKVector::One(Vector::from([1, 2, 3, 4]));
    let b = AnyKVector::One(Vector::from([3, 2, 1, 4]));
    let inner = a.inner(&b);
    let outer = a.outer(&b);
    assert_eq!(inner, AnyKVector::Zero(10));
    assert_eq!(outer, AnyKVector::Two(Bivector::from([-4, 8, -4, 8, 0, -8])));
    assert_eq!(a.geo(&b), Versor::Even(Motor::from([10, -4, 8, -4, 8, 0, -8, 0])));
}

#[test]
fn point_inner_point_is_minus_one() {
    let p = AnyKVector::Three(Trivector::point(4, 5, -2));
    let q = AnyKVector::Three(Trivector::point(-3, 6, 1));
    assert_eq!(p.inner(&q), AnyKVector::Zero(-1));
}

#[test]
fn inner_of_pseudoscalar_alternates_sign() {
    let ps = AnyKVector::Four(Pseudoscalar(1));
    let v = AnyKVector::One(Vector::from([1, 0, 0, 0]));
    let pv = ps.inner(&v);
    let vp = v.inner(&ps);
    assert_eq!(pv, AnyKVector::Three(Trivector::from([0, -1, 0, 0])));
    assert_eq!(vp, AnyKVector::Three(Trivector::from([0, 1, 0, 0])));
    assert_eq!(ps.inner(&ps), AnyKVector::Zero(0));
}

#[test]
fn coefficients_by_basis_mask() {
    let m = Versor::Even(Motor::from([1, 2, 3, 4, 5, 6, 7, 8]));
    assert_eq!(m.e(0b0000), 1);
    assert_eq!(m.e(0b0110), 2);
    assert_eq!(m.e(0b0101), 3);
    assert_eq!(m.e(0b1001), 7);
    assert_eq!(m.e(0b1111), 8);
    assert_eq!(m.e(0b0100), 0);
    let t = AnyKVector::Three(Trivector::from([1, 2, 3, 4]));
    assert_eq!(t.e(0b0111), 1);
    assert_eq!(t.e(0b1110), 4);
}

#[test]
fn grade_parts_and_highest_grade() {
    let m = Versor::Even(Motor::from([1, 2, 3, 4, 5, 6, 7, 0]));
    assert_eq!(m.grade(0), AnyKVector::Zero(1));
    assert_eq!(m.grade(2), AnyKVector::Two(Bivector::from([2, 3, 4, 5, 6, 7])));
    assert_eq!(m.grade(1), AnyKVector::One(Vector::from([0, 0, 0, 0])));
    assert_eq!(m.grade(9), AnyKVector::Zero(0));
    assert_eq!(m.highest_grade(), 2);
    let o = Versor::Odd(OddVersor::from([1, 0, 0, 0, 0, 0, 0, 1]));
    assert_eq!(o.highest_grade(), 3);
    assert_eq!(Versor::KVec(AnyKVector::One(Vector::from([1, 0, 0, 0]))).highest_grade(), 1);
}

#[test]
fn ideal_and_zero_tests() {
    assert!(AnyKVector::Four(Pseudoscalar(1)).is_ideal());
    assert!(!AnyKVector::Zero(1).is_ideal());
    assert!(AnyKVector::Three(Trivector::direction(1, 0, 0)).is_ideal());
    assert!(!AnyKVector::Three(Trivector::point(1, 0, 0)).is_ideal());
    assert!(Versor::Even(Motor::from([0, 0, 0, 0, 1, 0, 0, 1])).is_ideal());
    assert!(!Versor::Odd(OddVersor::from([0, 0, 0, 0, 1, 0, 0, 0])).is_ideal());
    assert!(Versor::Odd(OddVersor::from([0; 8])).is_zero());
    assert!(!Versor::KVec(AnyKVector::Zero(1)).is_zero());
}

#[test]
fn magnitudes_squared() {
    assert_eq!(Trivector::from([1, 2, 3, 4]).magnitude_squared(), 1);
    assert_eq!(Trivector::direction(1, 2, 3).magnitude_squared(), 14);
    assert_eq!(Vector::from([1, 2, 2, 7]).magnitude_squared(), 9);
    assert_eq!(Vector::from([0, 0, 0, 7]).magnitude_squared(), 49);
    assert_eq!(Bivector::from([0, 0, 0, 1, 2, 2]).magnitude_squared(), 9);
    assert_eq!(AnyKVector::Four(Pseudoscalar(-3)).magnitude_squared(), 9);
}

#[test]
fn grade_casts() {
    let v = Versor::KVec(AnyKVector::One(Vector::from([1, 2, 3, 4])));
    assert_eq!(v.as_vector(), Some(Vector::from([1, 2, 3, 4])));
    assert_eq!(v.as_trivector(), None);
    assert_eq!(v.as_scalar(), None);
    assert_eq!(Versor::KVec(AnyKVector::Zero(3)).as_scalar(), Some(3));
    assert_eq!(Versor::Even(Motor::identity()).as_scalar(), None);
    assert_eq!(
        Versor::KVec(AnyKVector::Four(Pseudoscalar(2))).as_pseudoscalar(),
        Some(Pseudoscalar(2))
    );
    assert_eq!(
        Versor::KVec(AnyKVector::Two(Bivector::e12())).as_bivector(),
        Some(Bivector::from([1, 0, 0, 0, 0, 0]))
    );
}

#[test]
fn versor_dual_of_motor_and_odd() {
    let m = Versor::Even(Motor::from([1, 2, 3, 4, 5, 6, 7, 8]));
    assert_eq!(m.dual(), Versor::Even(Motor::from([8, 7, 6, 5, 4, 3, 2, 1])));
    assert_eq!(m.dual().undual(), m);
    let o = Versor::Odd(OddVersor::from([1, 2, 3, 4, 5, 6, 7, 8]));
    assert_eq!(o.dual(), Versor::Odd(OddVersor::from([-6, -7, -8, -5, 4, 1, 2, 3])));
    assert_eq!(o.dual().undual(), o);
    assert_eq!(Versor::KVec(AnyKVector::Zero(2)).dual(), Versor::KVec(AnyKVector::Four(Pseudoscalar(2))));
}

#[test]
fn componentwise_arithmetic() {
    let a = Trivector::point(3, -2, 5);
    let b = Trivector::direction(-2, 3, 1);
    assert_eq!(a.add(&b), Trivector::from([1, -1, -1, -6]));
    assert_eq!(Trivector::point(3, 2, 1).sub(&Trivector::point(5, 6, 7)), Trivector::direction(-2, -4, -6));
    assert_eq!(Trivector::from([1, -2, 3, -4]).neg(), Trivector::from([-1, 2, -3, 4]));
    assert_eq!(Trivector::from([1, -2, 3, -4]).scale(3), Trivector::from([3, -6, 9, -12]));
    assert_eq!(Versor::KVec(AnyKVector::Zero(2)).scale(-3), Versor::KVec(AnyKVector::Zero(-6)));
    assert_eq!(Versor::Even(Motor::identity()).neg(), Versor::Even(Motor::from([-1, 0, 0, 0, 0, 0, 0, 0])));
    assert_eq!(Pseudoscalar(2).add(&Pseudoscalar(3)), Pseudoscalar(5));
    assert_eq!(Vector::e1().add(&Vector::e0()), Vector::from([1, 0, 0, 1]));
}

#[test]
fn translation_moves_slanted_plane() {
    let m = Motor::translation(&Trivector::direction(1, 2, 3));
    let moved = m.sandwich(&AnyKVector::One(Vector::from([1, 1, 0, -2])));
    assert_eq!(moved, Versor::KVec(AnyKVector::One(Vector::from([4, 4, 0, 4]))));
}

#[test]
fn translation_moves_line() {
    let m = Motor::translation(&Trivector::direction(1, 2, 3));
    let z_axis = AnyKVector::Two(Bivector::from([1, 0, 0, 0, 0, 0]));
    let moved = m.sandwich(&z_axis);
    assert_eq!(moved, Versor::KVec(AnyKVector::Two(Bivector::from([4, 0, 0, -8, 4, 0]))));
}

#[test]
fn translations_compose() {
    let a = Versor::Even(Motor::translation(&Trivector::direction(1, 2, 3)));
    let b = Versor::Even(Motor::translation(&Trivector::direction(-4, 0, 1)));
    assert_eq!(a.geo(&b), Versor::Even(Motor::from([4, 0, 0, 0, 6, -4, -8, 0])));
    let back = Versor::Even(Motor::translation(&Trivector::direction(-1, -2, -3)));
    assert_eq!(a.geo(&back), Versor::KVec(AnyKVector::Zero(4)));
}

#[test]
fn grade_asserts() {
    let v = Versor::KVec(AnyKVector::One(Vector::from([1, 2, 3, 4])));
    assert_eq!(v.assert_vector(), Vector::from([1, 2, 3, 4]));
    assert_eq!(Versor::KVec(AnyKVector::Zero(7)).assert_scalar(), 7);
    assert_eq!(Versor::KVec(AnyKVector::Four(Pseudoscalar(2))).assert_pseudoscalar(), Pseudoscalar(2));
    let t = Versor::KVec(AnyKVector::Three(Trivector::point(1, 2, 3)));
    assert_eq!(t.assert_trivector(), Trivector::point(1, 2, 3));
    let b = Versor::KVec(AnyKVector::Two(Bivector::e31()));
    assert_eq!(b.assert_bivector(), Bivector::from([0, 1, 0, 0, 0, 0]));
}

#[test]
fn motor_inverse() {
    let m = Motor::from([-1, 0, 0, 1, -2, 0, 0, 2]);
    let (n, d) = m.inverse().unwrap();
    assert_eq!(n, Motor::from([-2, 0, 0, -2, 4, 0, 0, 4]));
    assert_eq!(d, 4);
    assert_eq!(Versor::Even(m).geo(&Versor::Even(n)), Versor::KVec(AnyKVector::Zero(4)));

    let m = Motor::from([1, 2, 3, 4, 5, 6, 7, 8]);
    let (n, d) = m.inverse().unwrap();
    assert_eq!(n, Motor::from([30, -60, -90, -120, 202, 84, -34, 328]));
    assert_eq!(d, 900);
    assert_eq!(Versor::Even(m).geo(&Versor::Even(n)), Versor::KVec(AnyKVector::Zero(900)));

    assert_eq!(Motor::from([0, 0, 0, 0, 1, 2, 3, 4]).inverse(), None);
}

#[test]
fn odd_inverse() {
    let o = OddVersor::from([-1, 1, -5, -6, 1, -6, -10, -2]);
    let (n, d) = o.inverse().unwrap();
    assert_eq!(n, OddVersor::from([-28, 28, -140, -168, -28, 168, 280, 56]));
    assert_eq!(d, 784);
    assert_eq!(Versor::Odd(o).geo(&Versor::Odd(n)), Versor::KVec(AnyKVector::Zero(784)));
    assert_eq!(OddVersor::from([0, 0, 0, 5, 0, 1, 2, 3]).inverse(), None);
}
