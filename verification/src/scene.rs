//! Scene assembly.

use vstd::prelude::*;

use crate::material::Material;
use crate::shape::Surface;

verus! {

/// The surfaces of a scene paired with the materials that shade them.
pub struct Scene {
    surfaces: Vec<Surface>,
    materials: Vec<Material>,
}

impl Scene {
    /// The surfaces added so far, in insertion order.
    pub closed spec fn spec_surfaces(self) -> Seq<Surface> {
        self.surfaces@
    }

    /// The materials added so far, matching the surfaces by position.
    pub closed spec fn spec_materials(self) -> Seq<Material> {
        self.materials@
    }

    /// An empty scene.
    pub fn new() -> (r: Scene)
        ensures
            r.spec_surfaces().len() == 0,
            r.spec_materials().len() == 0,
    {
        Scene { surfaces: Vec::new(), materials: Vec::new() }
    }

    /// Add one primitive: a surface and the material that shades it.
    pub fn add_primitive(&mut self, surface: Surface, material: Material)
        ensures
            final(self).spec_surfaces() == old(self).spec_surfaces().push(surface),
            final(self).spec_materials() == old(self).spec_materials().push(material),
    {
        self.surfaces.push(surface);
        self.materials.push(material);
    }

    /// The surfaces, for intersection queries.
    pub fn surfaces(&self) -> (r: &Vec<Surface>)
        ensures
            r@ == self.spec_surfaces(),
    {
        &self.surfaces
    }

    /// The material at a position.
    pub fn material(&self, i: usize) -> (r: &Material)
        requires
            i < self.spec_materials().len(),
        ensures
            *r == self.spec_materials()[i as int],
    {
        &self.materials[i]
    }
}

} // verus!
