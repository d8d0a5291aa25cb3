use gremlin::camera::{Perspective, ThinLens};
use gremlin::color::Color;
use gremlin::geo::coords::Coords;
use gremlin::geo::point::Point;
use gremlin::material::{Lambertian, Material};
use gremlin::metrics::{Counter, Quantity, Timer};
use gremlin::scalar::Scalar;
use gremlin::scene::Scene;
use gremlin::geo::vector::Vector;
use gremlin::shape::{Shape, Sphere, Surface};
use rayon::iter::{IntoParallelIterator, ParallelIterator};

fn ins_scalar(v: f64) -> Scalar {
    Scalar::from_bits((v * 4294967296.0) as i64)
}

fn ins_float(s: Scalar) -> f64 {
    s.bits as f64 / 4294967296.0
}

#[test]
fn counter_inc() {
    let c = Counter::new();
    (0..1_000).into_par_iter().for_each(|_| {
        c.inc();
    });
    assert_eq!(1_000, c.get());
}

#[test]
fn quantity_starts_at_zero_bits() {
    let q = Quantity::new();
    assert_eq!(0, q.bits());
}

#[test]
fn timer_measures_something() {
    let t = Timer::tick();
    let elapsed = t.tock();
    assert!(elapsed.as_nanos() < u128::MAX);
}

#[test]
fn foo() {
    // The tangent of half a one-degree field of view.
    let tan_half_fov = Scalar::from_ratio(87268678, 10000000000);
    let mut cam = Perspective::new(ins_scalar(1.0), tan_half_fov).unwrap();
    assert!(cam.look_at(ins_scalar(1.0), ins_scalar(2.0), ins_scalar(3.0)));

    let _r = cam.ray(ins_scalar(1.0), ins_scalar(1.0));
}

#[test]
fn perspective_center_ray_heads_forward() {
    let cam = Perspective::new(ins_scalar(1.0), ins_scalar(1.0)).unwrap();
    // Through the image center the ray heads straight down the view axis.
    let r = cam.ray(ins_scalar(0.5), ins_scalar(0.5));
    assert_eq!(Point::origin(), r.origin());
    let d = r.direction();
    assert!(ins_float(d.x).abs() < 1e-6);
    assert!(ins_float(d.y).abs() < 1e-6);
    assert!((ins_float(d.z) + 1.0).abs() < 1e-6);
}

#[test]
fn thin_lens_checked_ray_matches_unchecked() {
    let mut builder = ThinLens::builder(64, 64);
    builder.move_to(Point::origin());
    builder.look_at(Point::new(ins_scalar(0.0), ins_scalar(0.0), ins_scalar(-10.0)));
    let cam = builder.build().unwrap();
    let j = (ins_scalar(0.25), ins_scalar(0.75));
    let l = (ins_scalar(0.1), ins_scalar(-0.1));
    let checked = cam.try_ray(17, 40, j, l).unwrap();
    let plain = cam.ray(17, 40, j, l);
    assert_eq!(checked, plain);
}

#[test]
fn thin_lens_center_ray() {
    let mut builder = ThinLens::builder(100, 100);
    builder.move_to(Point::origin());
    builder.look_at(Point::new(ins_scalar(0.0), ins_scalar(0.0), ins_scalar(-10.0)));
    builder.fov(ins_scalar(1.0));
    let cam = builder.build().unwrap();

    let zero = Scalar::zero();
    let r = cam.ray(50, 50, (zero, zero), (zero, zero));
    assert_eq!(Point::origin(), r.origin());
    let d = r.direction();
    assert!(ins_float(d.x).abs() < 1e-6);
    assert!(ins_float(d.y).abs() < 1e-6);
    assert!((ins_float(d.z) + 1.0).abs() < 1e-6);
}

#[test]
fn scene_collects_primitives() {
    let mut scene = Scene::new();
    let sphere = Sphere::new(Point::origin(), ins_scalar(1.0)).unwrap();
    let albedo = Color::from_channels(ins_scalar(0.5), ins_scalar(0.5), ins_scalar(0.5));
    scene.add_primitive(Surface::Sphere(sphere), Material::Lambertian(Lambertian::new(albedo)));
    assert_eq!(1, scene.surfaces().len());
}

#[test]
fn coords_hold_a_pair() {
    let c = Coords::new(3u32, 4u32);
    assert_eq!(3, c.x);
    assert_eq!(4, c.y);
    let s = Coords::splat(7u32);
    assert_eq!(s.x, s.y);
}

#[test]
fn lambertian_bounces_toward_normal() {
    let sphere = Sphere::new(Point::new(ins_scalar(10.0), ins_scalar(0.0), ins_scalar(0.0)), ins_scalar(1.0)).unwrap();
    let ray = gremlin::geo::ray::Ray::new(Point::origin(), Vector::x_axis());
    let isect = sphere.intersect(&ray, Scalar::zero(), Scalar::from_bits(i64::MAX)).unwrap();

    let albedo = Color::from_channels(ins_scalar(0.25), ins_scalar(0.5), ins_scalar(0.75));
    let mat = Lambertian::new(albedo);
    // A deterministic stand-in for a random unit direction.
    let rand_unit = Vector::y_axis();
    let (attenuation, out) = mat.bounce(&isect, rand_unit).unwrap();

    assert_eq!(albedo, attenuation);
    assert_eq!(isect.point, out.origin());
    assert_eq!(ins_scalar(-1.0), out.direction().x);
    assert_eq!(ins_scalar(1.0), out.direction().y);
}
