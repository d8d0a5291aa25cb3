//! # Gremlin
//!
//! The numerical core of an offline ray tracer, built on an exact
//! fixed-point scalar so that every operation has a precise contract.
//!
//! * [`scalar`] — the fixed-point number type all arithmetic is built on.
//! * [`geo`] — vectors, points, unit vectors, rays, 4x4 transforms, bounds.
//! * [`shape`] — ray-surface intersection for spheres, triangles and
//!   aggregates of surfaces.
//! * [`spectrum`] — uniformly sampled spectra and Riemann integration.
//! * [`color`] — tristimulus colors, CIE conversion and gamut mapping.
//! * [`film`] — per-pixel sample accumulation buffers.
//! * [`camera`] — ray generators feeding the intersection protocol.
//! * [`material`] — the scattering boundary between rays and surfaces.
//! * [`scene`] — surfaces paired with the materials that shade them.
//! * [`metrics`] — counters and timers for instrumentation.

pub mod camera;
pub mod color;
pub mod film;
pub mod geo;
pub mod material;
pub mod metrics;
pub mod scene;
pub mod scalar;
pub mod shape;
pub mod spectrum;
