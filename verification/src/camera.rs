//! Camera models.
//!
//! Cameras generate rays through pixels: the producers feeding the
//! intersection protocol. Camera space puts the eye at the origin
//! looking down the negative z-axis; a look-at matrix carries rays into
//! world space.
//!
//! All stochastic inputs — the sample's jitter inside its pixel and the
//! point on the lens disc — are drawn by the caller and handed in as
//! plain scalars, so ray generation itself is deterministic and fully
//! specified. The tangent of the half field-of-view is likewise supplied
//! by the caller, which keeps trigonometry out of the exact kernel.

use vstd::prelude::*;

use crate::geo::matrix::{is_look_at, look_at_ok, look_x, look_y, look_z, mul_pt_entry, mul_pt_ok, mul_vec_entry, mul_vec_ok, Matrix};
use crate::geo::unit::{lemma_exact_unit_normalizes, normalizes};
use crate::geo::point::Point;
use crate::geo::ray::Ray;
use crate::geo::vector::{v3_scale, v3_scale_ok, v3_sub, v3_sub_ok, V3, Vector};
use crate::scalar::{in64, sdiv, smul, Scalar, SCALE};

verus! {

/// The tangent of half the default 75-degree field of view, as a
/// fixed-point count.
pub const DEFAULT_TAN_HALF_FOV_BITS: i64 = 3295644318;

/// The screen-space x coordinate of normalized device coordinate `u`:
/// `(2u - 1) * aspect * tan_half_fov`.
pub open spec fn screen_x(aspect: int, thf: int, u: int) -> int {
    smul(smul(2 * u - SCALE, aspect), thf)
}

/// The screen-space y coordinate of normalized device coordinate `v`:
/// `(1 - 2v) * tan_half_fov`.
pub open spec fn screen_y(thf: int, v: int) -> int {
    smul(SCALE - 2 * v, thf)
}

/// Whether computing the screen point for `(u, v)` stays representable.
pub open spec fn screen_ok(aspect: int, thf: int, u: int, v: int) -> bool {
    &&& in64(u + u)
    &&& in64(2 * u - SCALE)
    &&& in64(smul(2 * u - SCALE, aspect))
    &&& in64(screen_x(aspect, thf, u))
    &&& in64(v + v)
    &&& in64(SCALE - 2 * v)
    &&& in64(screen_y(thf, v))
}

/// The screen point both camera models aim through, in camera space: on
/// the plane one unit in front of the eye.
pub open spec fn screen_point(aspect: int, thf: int, u: int, v: int) -> V3 {
    V3 { x: screen_x(aspect, thf, u), y: screen_y(thf, v), z: -(SCALE as int) }
}

/// Compute the screen point for normalized device coordinates `(u, v)`.
fn screen_vector(aspect: Scalar, thf: Scalar, u: Scalar, v: Scalar) -> (r: Vector)
    requires
        screen_ok(aspect@, thf@, u@, v@),
    ensures
        r@ == screen_point(aspect@, thf@, u@, v@),
{
    let one = Scalar::one();
    let sx = u.add(u).sub(one).mul(aspect).mul(thf);
    let sy = one.sub(v.add(v)).mul(thf);
    Vector::new(sx, sy, one.neg())
}

/// A plain perspective camera: an eye, a target, and the field of view.
pub struct Perspective {
    aspect_ratio: Scalar,
    tan_half_fov: Scalar,
    eye: Point,
    target: Point,
    cam_to_world: Matrix,
}

impl Perspective {
    /// The eye position.
    pub closed spec fn spec_eye(self) -> V3 {
        self.eye@
    }

    /// The point the camera looks at.
    pub closed spec fn spec_target(self) -> V3 {
        self.target@
    }

    /// The width-over-height ratio of the image.
    pub closed spec fn spec_aspect(self) -> int {
        self.aspect_ratio@
    }

    /// The tangent of half the field of view.
    pub closed spec fn spec_tan_half_fov(self) -> int {
        self.tan_half_fov@
    }

    /// The camera-to-world transform.
    pub closed spec fn spec_matrix(self) -> Matrix {
        self.cam_to_world
    }

    /// A camera at the origin looking down the negative z-axis with the
    /// given aspect ratio and tangent of the half field-of-view. The
    /// fixed default basis is exactly the world basis, so construction
    /// always succeeds.
    pub fn new(aspect_ratio: Scalar, tan_half_fov: Scalar) -> (r: Option<Perspective>)
        ensures
            r is Some,
            (r matches Some(c) ==> {
                &&& c.spec_aspect() == aspect_ratio@
                &&& c.spec_tan_half_fov() == tan_half_fov@
                &&& c.spec_eye() == (V3 { x: 0, y: 0, z: 0 })
                &&& c.spec_target() == (V3 { x: 0, y: 0, z: -(SCALE as int) })
                &&& is_look_at(c.spec_matrix(), c.spec_eye(), c.spec_target(), V3 { x: 0, y: (
                    SCALE as int), z: 0 })
            }),
    {
        let eye = Point::origin();
        let target = Point::new(Scalar::zero(), Scalar::zero(), Scalar::one().neg());
        proof {
            let from_v = V3 { x: 0, y: 0, z: 0 };
            let to_v = V3 { x: 0, y: 0, z: -(SCALE as int) };
            let up_v = V3 { x: 0, y: SCALE as int, z: 0 };
            crate::scalar::lemma_tdiv_multiple(SCALE as int, SCALE as int);
            assert(look_z(from_v, to_v) == (V3 { x: 0, y: 0, z: SCALE as int }));
            assert(look_x(from_v, to_v, up_v) == (V3 { x: SCALE as int, y: 0, z: 0 }));
            assert(look_y(from_v, to_v, up_v) == (V3 { x: 0, y: SCALE as int, z: 0 }));
            lemma_exact_unit_normalizes(V3 { x: SCALE as int, y: 0, z: 0 });
            lemma_exact_unit_normalizes(V3 { x: 0, y: SCALE as int, z: 0 });
            lemma_exact_unit_normalizes(V3 { x: 0, y: 0, z: SCALE as int });
            assert(look_at_ok(from_v, to_v, up_v));
        }
        let m = match Matrix::look_at(eye, target, Vector::y_axis()) {
            Some(m) => m,
            None => { return None; },
        };
        Some(Perspective { aspect_ratio, tan_half_fov, eye, target, cam_to_world: m })
    }

    /// Move the camera to a new location, rebuilding the camera basis.
    /// Leaves the camera unchanged and reports failure when the basis
    /// would be degenerate — the eye coinciding with the target.
    pub fn move_to(&mut self, x: Scalar, y: Scalar, z: Scalar) -> (ok: bool)
        ensures
            ok ==> final(self).spec_eye() == (V3 { x: x@, y: y@, z: z@ }) && is_look_at(
                final(self).spec_matrix(),
                final(self).spec_eye(),
                old(self).spec_target(),
                V3 { x: 0, y: SCALE as int, z: 0 },
            ),
            !ok ==> *final(self) == *old(self),
            final(self).spec_target() == old(self).spec_target(),
            final(self).spec_aspect() == old(self).spec_aspect(),
            final(self).spec_tan_half_fov() == old(self).spec_tan_half_fov(),
            look_at_ok(
                V3 { x: x@, y: y@, z: z@ },
                old(self).spec_target(),
                V3 { x: 0, y: SCALE as int, z: 0 },
            ) ==> (ok <==> normalizes(
                look_x(V3 { x: x@, y: y@, z: z@ }, old(self).spec_target(), V3 { x: 0, y: (
                    SCALE as int), z: 0 }),
            ) && normalizes(
                look_y(V3 { x: x@, y: y@, z: z@ }, old(self).spec_target(), V3 { x: 0, y: (
                    SCALE as int), z: 0 }),
            ) && normalizes(look_z(V3 { x: x@, y: y@, z: z@ }, old(self).spec_target()))),
    {
        let eye = Point::new(x, y, z);
        match Matrix::look_at(eye, self.target, Vector::y_axis()) {
            Some(m) => {
                self.eye = eye;
                self.cam_to_world = m;
                true
            },
            None => false,
        }
    }

    /// Point the camera at a new location, rebuilding the camera basis.
    /// Leaves the camera unchanged and reports failure when the basis
    /// would be degenerate.
    pub fn look_at(&mut self, x: Scalar, y: Scalar, z: Scalar) -> (ok: bool)
        ensures
            ok ==> final(self).spec_target() == (V3 { x: x@, y: y@, z: z@ }) && is_look_at(
                final(self).spec_matrix(),
                old(self).spec_eye(),
                final(self).spec_target(),
                V3 { x: 0, y: SCALE as int, z: 0 },
            ),
            !ok ==> *final(self) == *old(self),
            final(self).spec_eye() == old(self).spec_eye(),
            final(self).spec_aspect() == old(self).spec_aspect(),
            final(self).spec_tan_half_fov() == old(self).spec_tan_half_fov(),
            look_at_ok(
                old(self).spec_eye(),
                V3 { x: x@, y: y@, z: z@ },
                V3 { x: 0, y: SCALE as int, z: 0 },
            ) ==> (ok <==> normalizes(
                look_x(old(self).spec_eye(), V3 { x: x@, y: y@, z: z@ }, V3 { x: 0, y: (
                    SCALE as int), z: 0 }),
            ) && normalizes(
                look_y(old(self).spec_eye(), V3 { x: x@, y: y@, z: z@ }, V3 { x: 0, y: (
                    SCALE as int), z: 0 }),
            ) && normalizes(look_z(old(self).spec_eye(), V3 { x: x@, y: y@, z: z@ }))),
    {
        let target = Point::new(x, y, z);
        match Matrix::look_at(self.eye, target, Vector::y_axis()) {
            Some(m) => {
                self.target = target;
                self.cam_to_world = m;
                true
            },
            None => false,
        }
    }

    /// Generate the world-space ray through normalized device
    /// coordinates `(u, v)`: the eye toward the screen point, carried to
    /// world space by the camera basis.
    pub fn ray(&self, u: Scalar, v: Scalar) -> (r: Ray)
        requires
            screen_ok(self.spec_aspect(), self.spec_tan_half_fov(), u@, v@),
            mul_vec_ok(
                self.spec_matrix(),
                screen_point(self.spec_aspect(), self.spec_tan_half_fov(), u@, v@),
            ),
        ensures
            r.origin@ == self.spec_eye(),
            ({
                let s = screen_point(self.spec_aspect(), self.spec_tan_half_fov(), u@, v@);
                &&& r.direction@.x == mul_vec_entry(self.spec_matrix(), s, 0)
                &&& r.direction@.y == mul_vec_entry(self.spec_matrix(), s, 1)
                &&& r.direction@.z == mul_vec_entry(self.spec_matrix(), s, 2)
            }),
    {
        let screen = screen_vector(self.aspect_ratio, self.tan_half_fov, u, v);
        Ray::new(self.eye, self.cam_to_world.mul_vector(screen))
    }
}

/// An idealized thin-lens camera: rays start on a lens disc and pass
/// through the in-focus point of their pixel.
#[derive(Debug, Clone, PartialEq)]
pub struct ThinLens {
    resolution_width: Scalar,
    resolution_height: Scalar,
    aspect_ratio: Scalar,
    tan_half_fov: Scalar,
    focus_distance: Scalar,
    half_aperture: Scalar,
    cam_to_world: Matrix,
}

/// The whole state a thin-lens ray derives from, as counts.
pub struct ThinLensV {
    pub resolution_width: int,
    pub resolution_height: int,
    pub aspect_ratio: int,
    pub tan_half_fov: int,
    pub focus_distance: int,
    pub half_aperture: int,
    pub cam_to_world: Matrix,
}

impl View for ThinLens {
    type V = ThinLensV;

    closed spec fn view(&self) -> ThinLensV {
        ThinLensV {
            resolution_width: self.resolution_width@,
            resolution_height: self.resolution_height@,
            aspect_ratio: self.aspect_ratio@,
            tan_half_fov: self.tan_half_fov@,
            focus_distance: self.focus_distance@,
            half_aperture: self.half_aperture@,
            cam_to_world: self.cam_to_world,
        }
    }
}

/// The normalized device coordinate of a pixel index jittered inside
/// its pixel: `(index + jitter) / resolution`.
pub open spec fn ndc(index: int, jitter: int, resolution: int) -> int {
    sdiv(index * (SCALE as int) + jitter, resolution)
}

/// The camera-space ray a thin lens produces: from a point on the lens
/// disc toward the pixel's point on the focal plane.
pub open spec fn lens_ray(c: ThinLensV, u: int, v: int, l0: int, l1: int) -> (V3, V3) {
    let screen = screen_point(c.aspect_ratio, c.tan_half_fov, u, v);
    let focal = v3_scale(screen, c.focus_distance);
    let origin = v3_scale(V3 { x: l0, y: l1, z: 0 }, c.half_aperture);
    (origin, v3_sub(focal, origin))
}

/// Whether generating a thin-lens ray stays representable, every
/// intermediate step included.
pub open spec fn thin_lens_ray_ok(c: ThinLensV, px: int, py: int, j0: int, j1: int, l0: int, l1: int) -> bool {
    let u = ndc(px, j0, c.resolution_width);
    let v = ndc(py, j1, c.resolution_height);
    let screen = screen_point(c.aspect_ratio, c.tan_half_fov, u, v);
    let cam = lens_ray(c, u, v, l0, l1);
    &&& c.resolution_width != 0
    &&& c.resolution_height != 0
    &&& px < 0x8000_0000
    &&& py < 0x8000_0000
    &&& in64(px * (SCALE as int) + j0)
    &&& in64(py * (SCALE as int) + j1)
    &&& in64(u)
    &&& in64(v)
    &&& screen_ok(c.aspect_ratio, c.tan_half_fov, u, v)
    &&& v3_scale_ok(screen, c.focus_distance)
    &&& v3_scale_ok(V3 { x: l0, y: l1, z: 0 }, c.half_aperture)
    &&& v3_sub_ok(v3_scale(screen, c.focus_distance), cam.0)
    &&& mul_pt_ok(c.cam_to_world, cam.0)
    &&& mul_vec_ok(c.cam_to_world, cam.1)
}

impl ThinLens {
    /// Create a new thin-lens camera builder with the given resolution.
    pub fn builder(width: u32, height: u32) -> (r: ThinLensBuilder)
        requires
            1 <= width <= 0x7fff_ffff,
            1 <= height <= 0x7fff_ffff,
        ensures
            r.wf(),
            r.resolution_width@ == width * (SCALE as int),
            r.resolution_height@ == height * (SCALE as int),
    {
        ThinLensBuilder::new(width, height)
    }


    /// Generate the ray for a sample with runtime range checks: `None`
    /// instead of a violated precondition when a value would leave the
    /// representation. Succeeds whenever [`thin_lens_ray_ok`] holds.
    pub fn try_ray(&self, px: u32, py: u32, jitter: (Scalar, Scalar), lens: (Scalar, Scalar)) -> (r:
        Option<Ray>)
        ensures
            thin_lens_ray_ok(self@, px as int, py as int, jitter.0@, jitter.1@, lens.0@, lens.1@)
                ==> r is Some,
            (r matches Some(out) ==> {
                let u = ndc(px as int, jitter.0@, self@.resolution_width);
                let v = ndc(py as int, jitter.1@, self@.resolution_height);
                let cam = lens_ray(self@, u, v, lens.0@, lens.1@);
                &&& out.origin@.x == mul_pt_entry(self@.cam_to_world, cam.0, 0)
                &&& out.origin@.y == mul_pt_entry(self@.cam_to_world, cam.0, 1)
                &&& out.origin@.z == mul_pt_entry(self@.cam_to_world, cam.0, 2)
                &&& out.direction@.x == mul_vec_entry(self@.cam_to_world, cam.1, 0)
                &&& out.direction@.y == mul_vec_entry(self@.cam_to_world, cam.1, 1)
                &&& out.direction@.z == mul_vec_entry(self@.cam_to_world, cam.1, 2)
            }),
    {
        let one = Scalar::one();
        if px > 0x7fff_ffff || py > 0x7fff_ffff {
            return None;
        }
        let a = match Scalar::from_u32(px).checked_add(jitter.0) {
            Some(v) => v,
            None => { return None; },
        };
        let u = match a.checked_div(self.resolution_width) {
            Some(v) => v,
            None => { return None; },
        };
        let b = match Scalar::from_u32(py).checked_add(jitter.1) {
            Some(v) => v,
            None => { return None; },
        };
        let v = match b.checked_div(self.resolution_height) {
            Some(v) => v,
            None => { return None; },
        };
        let t1 = match u.checked_add(u) {
            Some(v) => v,
            None => { return None; },
        };
        let t2 = match t1.checked_sub(one) {
            Some(v) => v,
            None => { return None; },
        };
        let t3 = match t2.checked_mul(self.aspect_ratio) {
            Some(v) => v,
            None => { return None; },
        };
        let sx = match t3.checked_mul(self.tan_half_fov) {
            Some(v) => v,
            None => { return None; },
        };
        let w1 = match v.checked_add(v) {
            Some(v) => v,
            None => { return None; },
        };
        let w2 = match one.checked_sub(w1) {
            Some(v) => v,
            None => { return None; },
        };
        let sy = match w2.checked_mul(self.tan_half_fov) {
            Some(v) => v,
            None => { return None; },
        };
        let screen = Vector::new(sx, sy, one.neg());
        let focal = match screen.checked_mul(self.focus_distance) {
            Some(v) => v,
            None => { return None; },
        };
        let origin = match Vector::new(lens.0, lens.1, Scalar::zero()).checked_mul(
            self.half_aperture,
        ) {
            Some(v) => v,
            None => { return None; },
        };
        let dir = match focal.checked_sub(origin) {
            Some(v) => v,
            None => { return None; },
        };
        let world_origin = match self.cam_to_world.checked_mul_point(origin.to_point()) {
            Some(v) => v,
            None => { return None; },
        };
        let world_dir = match self.cam_to_world.checked_mul_vector(dir) {
            Some(v) => v,
            None => { return None; },
        };
        Some(Ray::new(world_origin, world_dir))
    }

    /// Generate the world-space ray for the sample of pixel
    /// `(px, py)` jittered by `jitter`, leaving the lens disc at the
    /// point `lens` (both supplied by the caller's sampler, in
    /// `[0, 1)` and the unit disc respectively).
    pub fn ray(&self, px: u32, py: u32, jitter: (Scalar, Scalar), lens: (Scalar, Scalar)) -> (r:
        Ray)
        requires
            thin_lens_ray_ok(self@, px as int, py as int, jitter.0@, jitter.1@, lens.0@, lens.1@),
        ensures
            ({
                let u = ndc(px as int, jitter.0@, self@.resolution_width);
                let v = ndc(py as int, jitter.1@, self@.resolution_height);
                let cam = lens_ray(self@, u, v, lens.0@, lens.1@);
                &&& r.origin@.x == mul_pt_entry(self@.cam_to_world, cam.0, 0)
                &&& r.origin@.y == mul_pt_entry(self@.cam_to_world, cam.0, 1)
                &&& r.origin@.z == mul_pt_entry(self@.cam_to_world, cam.0, 2)
                &&& r.direction@.x == mul_vec_entry(self@.cam_to_world, cam.1, 0)
                &&& r.direction@.y == mul_vec_entry(self@.cam_to_world, cam.1, 1)
                &&& r.direction@.z == mul_vec_entry(self@.cam_to_world, cam.1, 2)
            }),
    {
        let u = Scalar::from_u32(px).add(jitter.0).div(self.resolution_width);
        let v = Scalar::from_u32(py).add(jitter.1).div(self.resolution_height);
        let screen = screen_vector(self.aspect_ratio, self.tan_half_fov, u, v);
        let focal = screen.mul(self.focus_distance);
        let origin = Vector::new(lens.0, lens.1, Scalar::zero()).mul(self.half_aperture);
        let cam_ray = Ray::new(origin.to_point(), focal.sub(origin));
        self.cam_to_world.mul_ray(&cam_ray)
    }
}

/// Builder for creating [`ThinLens`] camera instances.
///
/// By default the camera sits at `(0, 0, -1)` looking at the origin,
/// with a 75-degree field of view and a zero-sized aperture (everything
/// in focus).
pub struct ThinLensBuilder {
    /// The camera's location (world space).
    pub look_from: Point,
    /// The point the camera looks at (world space).
    pub look_to: Point,
    /// The image width in pixels, as a scalar.
    pub resolution_width: Scalar,
    /// The image height in pixels, as a scalar.
    pub resolution_height: Scalar,
    /// The width-over-height ratio of the image.
    pub aspect_ratio: Scalar,
    /// The tangent of half the field of view.
    pub tan_half_fov: Scalar,
    /// The distance at which the scene is in focus.
    pub focus_distance: Scalar,
    /// Half the aperture diameter.
    pub half_aperture: Scalar,
}

impl ThinLensBuilder {
    /// The builder holds positive resolutions.
    pub open spec fn wf(&self) -> bool {
        self.resolution_width@ > 0 && self.resolution_height@ > 0
    }

    /// Create a new thin-lens camera builder with the given resolution.
    pub fn new(width: u32, height: u32) -> (r: ThinLensBuilder)
        requires
            1 <= width <= 0x7fff_ffff,
            1 <= height <= 0x7fff_ffff,
        ensures
            r.wf(),
            r.resolution_width@ == width * (SCALE as int),
            r.resolution_height@ == height * (SCALE as int),
            r.aspect_ratio@ == crate::scalar::tdiv(width * (SCALE as int), height as int),
            r.tan_half_fov@ == DEFAULT_TAN_HALF_FOV_BITS,
            r.focus_distance@ == SCALE,
            r.half_aperture@ == 0,
            r.look_from@ == (V3 { x: 0, y: 0, z: -(SCALE as int) }),
            r.look_to@ == (V3 { x: 0, y: 0, z: 0 }),
    {
        ThinLensBuilder {
            look_from: Point::new(Scalar::zero(), Scalar::zero(), Scalar::one().neg()),
            look_to: Point::origin(),
            resolution_width: Scalar::from_u32(width),
            resolution_height: Scalar::from_u32(height),
            aspect_ratio: Scalar::from_ratio(width as i64, height as i64),
            tan_half_fov: Scalar::from_bits(DEFAULT_TAN_HALF_FOV_BITS),
            focus_distance: Scalar::one(),
            half_aperture: Scalar::zero(),
        }
    }

    /// Move the camera to a new location.
    pub fn move_to(&mut self, eye: Point)
        ensures
            *final(self) == (ThinLensBuilder { look_from: eye, ..*old(self) }),
    {
        self.look_from = eye;
    }

    /// Point the camera at a new location.
    pub fn look_at(&mut self, target: Point)
        ensures
            *final(self) == (ThinLensBuilder { look_to: target, ..*old(self) }),
    {
        self.look_to = target;
    }

    /// Set the field of view, given as the tangent of half the angle.
    pub fn fov(&mut self, tan_half_fov: Scalar)
        ensures
            *final(self) == (ThinLensBuilder { tan_half_fov, ..*old(self) }),
    {
        self.tan_half_fov = tan_half_fov;
    }

    /// Set the aperture diameter; rays leave a disc of half this size.
    pub fn aperture(&mut self, aperture: Scalar)
        ensures
            final(self).half_aperture@ == crate::scalar::tdiv(aperture@, 2),
            final(self).look_from == old(self).look_from,
            final(self).look_to == old(self).look_to,
            final(self).resolution_width == old(self).resolution_width,
            final(self).resolution_height == old(self).resolution_height,
            final(self).aspect_ratio == old(self).aspect_ratio,
            final(self).tan_half_fov == old(self).tan_half_fov,
            final(self).focus_distance == old(self).focus_distance,
    {
        self.half_aperture = aperture.div_int(2);
    }

    /// Set the focal length.
    pub fn focal_length(&mut self, len: Scalar)
        ensures
            *final(self) == (ThinLensBuilder { focus_distance: len, ..*old(self) }),
    {
        self.focus_distance = len;
    }

    /// Set the focal length so that the look-at point is in focus.
    pub fn auto_focus(&mut self)
        requires
            v3_sub_ok(old(self).look_to@, old(self).look_from@),
            crate::geo::vector::v3_dot_ok(
                v3_sub(old(self).look_to@, old(self).look_from@),
                v3_sub(old(self).look_to@, old(self).look_from@),
            ),
        ensures
            crate::scalar::is_isqrt(
                crate::geo::vector::v3_dot(
                    v3_sub(old(self).look_to@, old(self).look_from@),
                    v3_sub(old(self).look_to@, old(self).look_from@),
                ) * (SCALE as int),
                final(self).focus_distance@,
            ),
            final(self).look_from == old(self).look_from,
            final(self).look_to == old(self).look_to,
            final(self).resolution_width == old(self).resolution_width,
            final(self).resolution_height == old(self).resolution_height,
            final(self).aspect_ratio == old(self).aspect_ratio,
            final(self).tan_half_fov == old(self).tan_half_fov,
            final(self).half_aperture == old(self).half_aperture,
    {
        self.focus_distance = self.look_to.sub(self.look_from).len();
    }

    /// Creates a new thin-lens camera from this builder. `None` when the
    /// camera basis is degenerate — the eye coinciding with the target,
    /// or the up direction parallel to the viewing axis.
    pub fn build(&self) -> (r: Option<ThinLens>)
        ensures
            (r matches Some(t) ==> {
                &&& t@.resolution_width == self.resolution_width@
                &&& t@.resolution_height == self.resolution_height@
                &&& t@.aspect_ratio == self.aspect_ratio@
                &&& t@.tan_half_fov == self.tan_half_fov@
                &&& t@.focus_distance == self.focus_distance@
                &&& t@.half_aperture == self.half_aperture@
                &&& is_look_at(t@.cam_to_world, self.look_from@, self.look_to@, V3 { x: 0, y: (
                    SCALE as int), z: 0 })
            }),
            look_at_ok(self.look_from@, self.look_to@, V3 { x: 0, y: SCALE as int, z: 0 }) ==> (r
                is Some <==> normalizes(
                look_x(self.look_from@, self.look_to@, V3 { x: 0, y: SCALE as int, z: 0 }),
            ) && normalizes(
                look_y(self.look_from@, self.look_to@, V3 { x: 0, y: SCALE as int, z: 0 }),
            ) && normalizes(look_z(self.look_from@, self.look_to@))),
    {
        let m = match Matrix::look_at(self.look_from, self.look_to, Vector::y_axis()) {
            Some(m) => m,
            None => { return None; },
        };
        Some(
            ThinLens {
                resolution_width: self.resolution_width,
                resolution_height: self.resolution_height,
                aspect_ratio: self.aspect_ratio,
                tan_half_fov: self.tan_half_fov,
                focus_distance: self.focus_distance,
                half_aperture: self.half_aperture,
                cam_to_world: m,
            },
        )
    }
}

} // verus!
