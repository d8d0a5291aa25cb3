use gremlin::geo::point::Point;
use gremlin::geo::ray::Ray;
use gremlin::geo::unit::Unit;
use gremlin::geo::vector::Vector;
use gremlin::scalar::Scalar;
use gremlin::shape::{DynamicAggregate, Shape, Sphere, Surface, Triangle};

fn shp_scalar(v: f64) -> Scalar {
    Scalar::from_bits((v * 4294967296.0) as i64)
}

fn shp_point(x: f64, y: f64, z: f64) -> Point {
    Point::new(shp_scalar(x), shp_scalar(y), shp_scalar(z))
}

fn shp_huge() -> Scalar {
    Scalar::from_bits(i64::MAX)
}

#[test]
fn intersect_two_points() {
    let s = Sphere::new(shp_point(10.0, 0.0, 0.0), shp_scalar(1.0)).unwrap();
    let ray = Ray::new(Point::origin(), Vector::x_axis());

    assert_eq!(true, s.intersects(&ray, shp_scalar(0.0), shp_huge()));

    let isect = s.intersect(&ray, shp_scalar(0.0), shp_huge()).unwrap();
    assert_eq!(shp_point(9.0, 0.0, 0.0), isect.point);
    assert_eq!(Unit::x_axis().neg().to_vector(), isect.norm.to_vector());
    assert_eq!(shp_scalar(9.0), isect.t);
}

#[test]
fn intersect_no_points() {
    let s = Sphere::new(shp_point(10.0, 0.0, 0.0), shp_scalar(1.0)).unwrap();
    let ray = Ray::new(Point::origin(), Vector::y_axis());

    assert_eq!(false, s.intersects(&ray, shp_scalar(0.0), shp_huge()));
    assert_eq!(None, s.intersect(&ray, shp_scalar(0.0), shp_huge()));
}

#[test]
fn intersect_out_of_bounds() {
    let s = Sphere::new(shp_point(10.0, 0.0, 0.0), shp_scalar(1.0)).unwrap();
    let ray = Ray::new(Point::origin(), Vector::x_axis());

    assert_eq!(false, s.intersects(&ray, shp_scalar(0.0), shp_scalar(7.0)));
    assert_eq!(None, s.intersect(&ray, shp_scalar(0.0), shp_scalar(7.0)));

    assert_eq!(false, s.intersects(&ray, shp_scalar(20.0), shp_huge()));
    assert_eq!(None, s.intersect(&ray, shp_scalar(20.0), shp_huge()));
}

#[test]
fn dynamic_aggregate_add() {
    let mut agg = DynamicAggregate::new();
    let sphere = Sphere::new(shp_point(10.0, 0.0, 0.0), shp_scalar(1.0)).unwrap();
    agg.push(Box::new(sphere));
}

#[test]
fn sphere_new_rejects_degenerate_radius() {
    assert_eq!(None, Sphere::new(Point::origin(), shp_scalar(0.0)));
    assert_eq!(None, Sphere::new(Point::origin(), shp_scalar(-1.0)));
}

#[test]
fn dispatch_strategies_agree() {
    let near = Sphere::new(shp_point(10.0, 0.0, 0.0), shp_scalar(1.0)).unwrap();
    let far = Sphere::new(shp_point(20.0, 0.0, 0.0), shp_scalar(1.0)).unwrap();
    let ray = Ray::new(Point::origin(), Vector::x_axis());
    let t0 = shp_scalar(0.0);
    let t1 = shp_huge();

    let direct: Vec<Sphere> = vec![near, far];
    let tagged: Vec<Surface> = vec![Surface::Sphere(near), Surface::Sphere(far)];
    let mut dynamic: DynamicAggregate = DynamicAggregate::new();
    dynamic.push(Box::new(near));
    dynamic.push(Box::new(far));

    let a = direct.intersect(&ray, t0, t1).unwrap();
    let b = tagged.intersect(&ray, t0, t1).unwrap();
    let c = dynamic.intersect(&ray, t0, t1).unwrap();

    assert_eq!(a, b);
    assert_eq!(b, c);
    assert_eq!(shp_scalar(9.0), a.t);
}

#[test]
fn aggregate_returns_nearest() {
    let far = Sphere::new(shp_point(20.0, 0.0, 0.0), shp_scalar(1.0)).unwrap();
    let near = Sphere::new(shp_point(10.0, 0.0, 0.0), shp_scalar(1.0)).unwrap();
    let ray = Ray::new(Point::origin(), Vector::x_axis());

    // Order in the vector must not matter for which hit wins.
    let agg: Vec<Sphere> = vec![far, near];
    let isect = agg.intersect(&ray, shp_scalar(0.0), shp_huge()).unwrap();
    assert_eq!(shp_scalar(9.0), isect.t);

    let agg: Vec<Sphere> = vec![near, far];
    let isect = agg.intersect(&ray, shp_scalar(0.0), shp_huge()).unwrap();
    assert_eq!(shp_scalar(9.0), isect.t);
}

#[test]
fn triangle_hit_inside() {
    let tri = Triangle::new(
        shp_point(0.0, 0.0, -2.0),
        shp_point(1.0, 0.0, -2.0),
        shp_point(0.0, 1.0, -2.0),
    );
    let ray = Ray::new(
        shp_point(0.25, 0.25, 0.0),
        Vector::z_axis().neg(),
    );
    let isect = tri.intersect(&ray, shp_scalar(0.0), shp_huge()).unwrap();
    assert_eq!(shp_scalar(2.0), isect.t);
    assert_eq!(shp_point(0.25, 0.25, -2.0), isect.point);
    assert_eq!(Vector::z_axis(), isect.norm.to_vector());
}

#[test]
fn triangle_miss_outside() {
    let tri = Triangle::new(
        shp_point(0.0, 0.0, -2.0),
        shp_point(1.0, 0.0, -2.0),
        shp_point(0.0, 1.0, -2.0),
    );
    let ray = Ray::new(
        shp_point(0.75, 0.75, 0.0),
        Vector::z_axis().neg(),
    );
    assert_eq!(None, tri.intersect(&ray, shp_scalar(0.0), shp_huge()));
    // A ray parallel to the triangle's plane never hits it.
    let parallel = Ray::new(shp_point(0.25, 0.25, 0.0), Vector::x_axis());
    assert_eq!(None, parallel_hit(&tri, &parallel));
}

fn parallel_hit(tri: &Triangle, ray: &Ray) -> Option<gremlin::shape::Intersection> {
    tri.intersect(ray, shp_scalar(0.0), shp_huge())
}

#[test]
fn triangle_degenerate_reports_no_hit() {
    let tri = Triangle::new(
        shp_point(0.0, 0.0, -2.0),
        shp_point(0.0, 0.0, -2.0),
        shp_point(0.0, 0.0, -2.0),
    );
    let ray = Ray::new(Point::origin(), Vector::z_axis().neg());
    assert_eq!(None, tri.intersect(&ray, shp_scalar(0.0), shp_huge()));
}

#[test]
fn surface_dispatches_to_triangle() {
    let tri = Triangle::new(
        shp_point(0.0, 0.0, -2.0),
        shp_point(1.0, 0.0, -2.0),
        shp_point(0.0, 1.0, -2.0),
    );
    let surface = Surface::Triangle(tri);
    let ray = Ray::new(shp_point(0.25, 0.25, 0.0), Vector::z_axis().neg());
    let isect = surface.intersect(&ray, shp_scalar(0.0), shp_huge()).unwrap();
    assert_eq!(shp_scalar(2.0), isect.t);
}
