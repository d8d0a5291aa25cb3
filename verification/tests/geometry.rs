use gremlin::geo::bounds::Bounds;
use gremlin::geo::point::Point;
use gremlin::geo::unit::Unit;
use gremlin::geo::vector::Vector;
use gremlin::scalar::Scalar;

fn geo_scalar(v: f64) -> Scalar {
    Scalar::from_bits((v * 4294967296.0) as i64)
}

fn geo_float(s: Scalar) -> f64 {
    s.bits as f64 / 4294967296.0
}

fn geo_vec(x: f64, y: f64, z: f64) -> Vector {
    Vector::new(geo_scalar(x), geo_scalar(y), geo_scalar(z))
}

fn geo_point(x: f64, y: f64, z: f64) -> Point {
    Point::new(geo_scalar(x), geo_scalar(y), geo_scalar(z))
}

#[test]
fn vector_min() {
    let u = Vector::splat(geo_scalar(1.0));
    let v = geo_vec(-1.0, 2.0, 1.0);

    assert_eq!(geo_vec(-1.0, 1.0, 1.0), Vector::min(u, v));
}

#[test]
fn vector_max() {
    let u = Vector::splat(geo_scalar(1.0));
    let v = geo_vec(-1.0, 2.0, 1.0);

    assert_eq!(geo_vec(1.0, 2.0, 1.0), Vector::max(u, v));
}

#[test]
fn dot() {
    let u = Vector::x_axis();
    let v = geo_vec(2.0, 1.0, 0.0);

    assert_eq!(geo_scalar(2.0), u.dot(v));
}

#[test]
fn cross() {
    assert_eq!(Vector::z_axis(), Vector::x_axis().cross(Vector::y_axis()));
    assert_eq!(Vector::x_axis(), Vector::y_axis().cross(Vector::z_axis()));
    assert_eq!(Vector::y_axis(), Vector::z_axis().cross(Vector::x_axis()));
}

#[test]
fn neg() {
    assert_eq!(Vector::splat(geo_scalar(-1.0)), Vector::splat(geo_scalar(1.0)).neg());
}

#[test]
fn add() {
    assert_eq!(
        Vector::splat(geo_scalar(3.0)),
        Vector::splat(geo_scalar(2.0)).add(Vector::splat(geo_scalar(1.0)))
    );
}

#[test]
fn vector_mult() {
    assert_eq!(
        Vector::splat(geo_scalar(1.5)),
        Vector::splat(geo_scalar(1.0)).mul(geo_scalar(1.5))
    );
}

#[test]
fn vector_div() {
    assert_eq!(
        Vector::splat(geo_scalar(2.0)),
        Vector::splat(geo_scalar(8.0)).div(geo_scalar(4.0))
    );
}

#[test]
fn point_min() {
    let p = Point::splat(geo_scalar(1.0));
    let q = geo_point(-1.0, 2.0, 1.0);

    assert_eq!(geo_point(-1.0, 1.0, 1.0), Point::min(p, q));
}

#[test]
fn point_max() {
    let p = Point::splat(geo_scalar(1.0));
    let q = geo_point(-1.0, 2.0, 1.0);

    assert_eq!(geo_point(1.0, 2.0, 1.0), Point::max(p, q));
}

#[test]
fn distance() {
    let p = Point::origin();
    let q = geo_point(3.0, 4.0, 5.0);
    let d = geo_float(p.distance(q));
    assert!((d - 7.0710678).abs() <= 7.0710678 * 1e-6);
}

#[test]
fn lerp_and_center() {
    let p = Point::origin();
    let q = Point::splat(geo_scalar(2.0));

    assert_eq!(p, p.lerp(q, geo_scalar(0.0)));
    assert_eq!(q, p.lerp(q, geo_scalar(1.0)));
    assert_eq!(Point::splat(geo_scalar(1.0)), p.lerp(q, geo_scalar(0.5)));
    assert_eq!(Point::splat(geo_scalar(1.0)), p.center(q));
}

#[test]
fn negation() {
    assert_eq!(Point::splat(geo_scalar(-1.0)), Point::splat(geo_scalar(1.0)).neg());
}

#[test]
fn intersects() {
    let bounds = Bounds::from_corners(Point::splat(geo_scalar(-1.0)), Point::splat(geo_scalar(1.0)));
    let huge = Scalar::from_bits(i64::MAX);

    let ray = gremlin::geo::ray::Ray::new(geo_point(0.0, 0.0, -10.0), Vector::z_axis());
    let hit = bounds.intersects(&ray, geo_scalar(0.0), huge);
    assert_eq!(Some((geo_scalar(9.0), geo_scalar(11.0))), hit);

    let ray = gremlin::geo::ray::Ray::new(geo_point(0.0, 0.0, -10.0), Vector::y_axis());
    assert_eq!(None, bounds.intersects(&ray, geo_scalar(0.0), huge));
}

#[test]
fn normalize_zero_vector_fails() {
    assert_eq!(None, Unit::try_from(Vector::zero()));
}

#[test]
fn normalize_recovers_axis() {
    let u = Unit::try_from(geo_vec(0.0, 0.0, 4.0)).unwrap();
    assert_eq!(u.to_vector(), Vector::z_axis());

    let d = Unit::try_from(geo_vec(1.0, 1.0, 1.0)).unwrap();
    let len = geo_float(d.x()).powi(2) + geo_float(d.y()).powi(2) + geo_float(d.z()).powi(2);
    assert!((len - 1.0).abs() < 1e-4);
}

#[test]
fn ray_evaluates_along_direction() {
    let ray = gremlin::geo::ray::Ray::new(geo_point(1.0, 0.0, 0.0), geo_vec(0.0, 2.0, 0.0));
    assert_eq!(geo_point(1.0, 5.0, 0.0), ray.at(geo_scalar(2.5)));
}
