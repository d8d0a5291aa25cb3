//! Materials and scattering.
//!
//! A material's scattering function receives an intersection record and
//! an incoming ray, and answers either with no further ray (absorption)
//! or with a color attenuation and an outgoing ray. The intersection
//! protocol and the film accumulation loop are agnostic to what produces
//! or consumes these values. Stochastic scattering directions are drawn
//! by the caller and handed in as plain vectors, so the decision logic
//! here is deterministic and fully specified.

use vstd::prelude::*;

use crate::color::{Color, LinearRGB, RGB};
use crate::geo::ray::Ray;
use crate::geo::vector::{v3_add, v3_add_ok, V3, Vector};
use crate::shape::Intersection;

verus! {

/// The capability of scattering an incoming ray at an intersection.
///
/// `rand_unit` is a caller-supplied direction, typically drawn uniformly
/// from the unit sphere, that carries all the randomness a stochastic
/// material needs. Implementers outside this crate may answer however
/// they wish; nothing here is assumed about them.
pub trait BSDF {
    /// Scatter the incoming ray, or absorb it.
    fn scatter(&self, ray: &Ray, isect: &Intersection, rand_unit: Vector) -> Option<(RGB, Ray)>;
}

/// A diffuse material: scattered rays leave toward the surface normal
/// displaced by a random unit vector, attenuated by the albedo.
#[derive(Debug, Clone, Copy, PartialEq)]
pub struct Lambertian {
    albedo: Color<LinearRGB>,
}

impl Lambertian {
    /// A diffuse material with the given albedo.
    pub fn new(albedo: RGB) -> (r: Lambertian)
        ensures
            r.spec_albedo() == albedo@,
    {
        Lambertian { albedo }
    }

    /// The fraction of light the surface reflects.
    pub closed spec fn spec_albedo(self) -> V3 {
        self.albedo@
    }

    /// The diffuse bounce: the outgoing ray starts at the hit point and
    /// heads along the surface normal displaced by `rand_unit`, and the
    /// attenuation is the albedo. Absorbs the sample — `None` — only
    /// when the displaced direction is not representable.
    pub fn bounce(&self, isect: &Intersection, rand_unit: Vector) -> (r: Option<(RGB, Ray)>)
        ensures
            match r {
                Some(out) => {
                    &&& v3_add_ok(isect.norm@, rand_unit@)
                    &&& out.0@ == self.spec_albedo()
                    &&& out.1.origin@ == isect.point@
                    &&& out.1.direction@ == v3_add(isect.norm@, rand_unit@)
                },
                None => !v3_add_ok(isect.norm@, rand_unit@),
            },
    {
        let dir = match isect.norm.to_vector().checked_add(rand_unit) {
            Some(v) => v,
            None => { return None; },
        };
        Some((self.albedo.clone(), Ray::new(isect.point, dir)))
    }
}

impl BSDF for Lambertian {
    fn scatter(&self, ray: &Ray, isect: &Intersection, rand_unit: Vector) -> Option<(RGB, Ray)> {
        self.bounce(isect, rand_unit)
    }
}

/// The identity of one material kind able to answer scattering queries:
/// a closed sum over the kinds known at compile time.
#[derive(Debug, Clone, Copy, PartialEq)]
pub enum Material {
    Lambertian(Lambertian),
}

impl BSDF for Material {
    fn scatter(&self, ray: &Ray, isect: &Intersection, rand_unit: Vector) -> Option<(RGB, Ray)> {
        match self {
            Material::Lambertian(m) => m.bounce(isect, rand_unit),
        }
    }
}

} // verus!
