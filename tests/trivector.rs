use pga3::Trivector;

#[test]
fn point_new() {
    let point = Trivector::point(4, -4, 3);
    assert_eq!(point, Trivector::from([1, -4, 4, -3]));
    assert!(!point.is_ideal());
}

#[test]
fn dir_new() {
    let dir = Trivector::direction(4, -4, 3);
    assert_eq!(dir, Trivector::from([0, -4, 4, -3]));
    assert!(dir.is_ideal());
}

#[test]
fn trivector_addition() {
    let a1 = Trivector::point(3, -2, 5);
    let a2 = Trivector::direction(-2, 3, 1);
    assert_eq!(a1.add(&a2), Trivector::point(1, 1, 6));
}

#[test]
fn subtract_points() {
    let p1 = Trivector::point(3, 2, 1);
    let p2 = Trivector::point(5, 6, 7);
    assert_eq!(p1.sub(&p2), Trivector::direction(-2, -4, -6));
}

#[test]
fn subtract_dir_from_point() {
    let p = Trivector::point(3, 2, 1);
    let p_at_inf = Trivector::direction(5, 6, 7);
    assert_eq!(p.sub(&p_at_inf), Trivector::point(-2, -4, -6));
}

#[test]
fn subtract_dirs() {
    let d1 = Trivector::direction(3, 2, 1);
    let d2 = Trivector::direction(5, 6, 7);
    assert_eq!(d1.sub(&d2), Trivector::direction(-2, -4, -6));
}

#[test]
fn negation() {
    let a = Trivector::new(-4, 1, -2, 3);
    assert_eq!(a.neg(), Trivector::new(4, -1, 2, -3));
}
