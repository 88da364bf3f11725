//! Fills in the mesh of each geometry component before its first upload.

use vstd::prelude::*;
use crate::geometry::{
    cube_index_data, cube_indices, cube_vertex_data, cube_vertices, plane_index_data,
    plane_indices, plane_vertex_data, plane_vertices, triangle_index_data, triangle_indices,
    triangle_vertex_data, triangle_vertices, GeometryComponent, GeometryComponentView,
    GeometryType, GeometryView,
};

verus! {

/// What a list of components holds, as mathematical values.
pub open spec fn views(components: Seq<GeometryComponent>) -> Seq<GeometryComponentView> {
    components.map_values(|c: GeometryComponent| c@)
}

/// The places, in rising order, of the components among the first `n` that
/// have not been uploaded.
pub open spec fn pending_uploads(components: Seq<GeometryComponentView>, n: int) -> Seq<usize>
    decreases n,
{
    if n <= 0 {
        Seq::empty()
    } else if components[n - 1].data.initialized {
        pending_uploads(components, n - 1)
    } else {
        pending_uploads(components, n - 1).push((n - 1) as usize)
    }
}

pub struct GeometryInitializerSystem;

impl GeometryInitializerSystem {
    /// Gives the component the mesh of the unit cube.
    pub fn init_cube(&self, geom: &mut GeometryComponent)
        ensures
            final(geom)@ == (GeometryComponentView {
                data: GeometryView { vertices: cube_vertices(), indices: cube_indices(), ..old(geom)@.data },
                ..old(geom)@
            }),
            final(geom)@.data.valid(),
    {
        geom.data.vertices = cube_vertex_data();
        geom.data.indices = cube_index_data();
    }

    /// Gives the component the mesh of the unit square.
    pub fn init_plane(&self, geom: &mut GeometryComponent)
        ensures
            final(geom)@ == (GeometryComponentView {
                data: GeometryView { vertices: plane_vertices(), indices: plane_indices(), ..old(geom)@.data },
                ..old(geom)@
            }),
            final(geom)@.data.valid(),
    {
        geom.data.vertices = plane_vertex_data();
        geom.data.indices = plane_index_data();
    }

    /// Gives the component the mesh of the triangle.
    pub fn init_triangle(&self, geom: &mut GeometryComponent)
        ensures
            final(geom)@ == (GeometryComponentView {
                data: GeometryView { vertices: triangle_vertices(), indices: triangle_indices(), ..old(geom)@.data },
                ..old(geom)@
            }),
            final(geom)@.data.valid(),
    {
        geom.data.vertices = triangle_vertex_data();
        geom.data.indices = triangle_index_data();
    }

    /// Generates the mesh of a component from its shape, unless the mesh has
    /// been uploaded already. Returns whether the mesh now waits for its
    /// upload.
    pub fn create_geometry(&self, geom: &mut GeometryComponent) -> (pending: bool)
        ensures
            final(geom)@ == old(geom)@.generated(),
            pending == !old(geom)@.data.initialized,
            !old(geom)@.data.initialized ==> final(geom)@.data.valid(),
    {
        if geom.data.initialized {
            return false;
        }
        match geom.geometry_type {
            GeometryType::Box => self.init_cube(geom),
            GeometryType::Triangle => self.init_triangle(geom),
            GeometryType::Plane => self.init_plane(geom),
        }
        true
    }

    /// Generates the mesh of every component that has not been uploaded, and
    /// returns the places of those components, in rising order. The caller
    /// uploads each of them and records the buffers with `initialize`.
    pub fn run(&mut self, geometries: &mut Vec<GeometryComponent>) -> (pending: Vec<usize>)
        ensures
            final(geometries)@.len() == old(geometries)@.len(),
            forall|i: int| 0 <= i < old(geometries)@.len() ==>
                (#[trigger] final(geometries)@[i])@ == old(geometries)@[i]@.generated(),
            pending@ == pending_uploads(views(old(geometries)@), old(geometries)@.len() as int),
    {
        let mut pending: Vec<usize> = Vec::new();
        let mut i: usize = 0;
        while i < geometries.len()
            invariant
                i <= geometries@.len(),
                geometries@.len() == old(geometries)@.len(),
                forall|j: int| 0 <= j < i ==> (#[trigger] geometries@[j])@ == old(geometries)@[j]@.generated(),
                forall|j: int| i <= j < geometries@.len() ==> geometries@[j] == old(geometries)@[j],
                pending@ == pending_uploads(views(old(geometries)@), i as int),
            decreases geometries@.len() - i,
        {
            let waits = self.create_geometry(&mut geometries[i]);
            if waits {
                pending.push(i);
            }
            i += 1;
        }
        pending
    }
}

/// Generating twice is the same as generating once, and generating an
/// uploaded mesh changes nothing.
pub proof fn lemma_generate_idempotent(component: GeometryComponentView)
    ensures
        component.generated().generated() == component.generated(),
        component.data.initialized ==> component.generated() == component,
        component.generated().data.initialized == component.data.initialized,
        component.data.well_formed() ==> component.generated().data.well_formed(),
{
}

} // verus!
