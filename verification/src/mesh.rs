//! Indexed triangle geometry, for 3D meshes and 2D indexed shapes: the
//! builders and the checks their geometry must pass before anything is
//! uploaded.
use vstd::prelude::*;
use crate::common::{
    triangle_indices_outcome, valid_triangle_geometry, validate_indexed_triangle_geometry,
    validate_triangle_indices, BufferMemoryPreference,
};
use crate::error::{is_invalid_state, VMNLResult};

verus! {

/// Builder for an indexed mesh: its vertices, its triangle indices and the
/// preferred buffer placement.
pub struct MeshBuilder<TVertex> {
    vertices: Vec<TVertex>,
    indices: Vec<u32>,
    buffer_memory_preference: BufferMemoryPreference,
}

impl<TVertex> MeshBuilder<TVertex> {
    /// The vertices.
    pub closed spec fn spec_vertices(&self) -> Seq<TVertex> {
        self.vertices@
    }

    /// The triangle indices.
    pub closed spec fn spec_indices(&self) -> Seq<u32> {
        self.indices@
    }

    /// The preferred buffer placement.
    pub closed spec fn spec_memory_preference(&self) -> BufferMemoryPreference {
        self.buffer_memory_preference
    }

    /// A builder for the vertices and indices, with device memory.
    pub fn new(vertices: Vec<TVertex>, indices: Vec<u32>) -> (b: Self)
        ensures
            b.spec_vertices() == vertices@,
            b.spec_indices() == indices@,
            b.spec_memory_preference() == BufferMemoryPreference::Device,
    {
        MeshBuilder { vertices, indices, buffer_memory_preference: BufferMemoryPreference::Device }
    }

    /// Set the preferred buffer placement.
    pub fn buffer_memory_preference(self, preference: BufferMemoryPreference) -> (b: Self)
        ensures
            b.spec_vertices() == self.spec_vertices(),
            b.spec_indices() == self.spec_indices(),
            b.spec_memory_preference() == preference,
    {
        MeshBuilder { buffer_memory_preference: preference, ..self }
    }

    /// Check mesh geometry: at least three vertices, a non-empty whole
    /// number of triangles, and every index in bounds; errors name the mesh.
    pub fn validate_geometry(vertices: &[TVertex], indices: &[u32]) -> (r: VMNLResult<()>)
        ensures
            r is Ok <==> valid_triangle_geometry(vertices@.len(), indices@),
            triangle_indices_outcome(r, vertices@.len(), indices@, "mesh"@),
    {
        validate_triangle_indices(vertices.len(), indices, "mesh")
    }

    /// Check the geometry, then return the `(vertex, index)` draw counts.
    pub fn draw_counts(&self) -> (r: VMNLResult<(u32, u32)>)
        ensures
            r is Ok <==> valid_triangle_geometry(self.spec_vertices().len(), self.spec_indices())
                && self.spec_vertices().len() <= u32::MAX && self.spec_indices().len() <= u32::MAX,
            r matches Ok(c) ==> c.0 == self.spec_vertices().len() && c.1 == self.spec_indices().len(),
            triangle_indices_outcome(r, self.spec_vertices().len(), self.spec_indices(), "mesh"@),
            valid_triangle_geometry(self.spec_vertices().len(), self.spec_indices())
                && self.spec_vertices().len() > u32::MAX ==> is_invalid_state(
                r,
                "vertex count out of bounds"@,
            ),
            valid_triangle_geometry(self.spec_vertices().len(), self.spec_indices())
                && self.spec_vertices().len() <= u32::MAX && self.spec_indices().len() > u32::MAX
                ==> is_invalid_state(r, "index count out of bounds"@),
    {
        validate_indexed_triangle_geometry(self.vertices.len(), self.indices.as_slice(), "mesh")
    }

    /// Take the vertices, indices and placement out of the builder.
    pub fn into_parts(self) -> (p: (Vec<TVertex>, Vec<u32>, BufferMemoryPreference))
        ensures
            p.0@ == self.spec_vertices(),
            p.1@ == self.spec_indices(),
            p.2 == self.spec_memory_preference(),
    {
        (self.vertices, self.indices, self.buffer_memory_preference)
    }
}

/// Builder for an indexed 2D shape: its vertices, its triangle indices and
/// the preferred buffer placement.
pub struct IndexedShapeBuilder<TVertex> {
    vertices: Vec<TVertex>,
    indices: Vec<u32>,
    buffer_memory_preference: BufferMemoryPreference,
}

impl<TVertex> IndexedShapeBuilder<TVertex> {
    /// The vertices.
    pub closed spec fn spec_vertices(&self) -> Seq<TVertex> {
        self.vertices@
    }

    /// The triangle indices.
    pub closed spec fn spec_indices(&self) -> Seq<u32> {
        self.indices@
    }

    /// The preferred buffer placement.
    pub closed spec fn spec_memory_preference(&self) -> BufferMemoryPreference {
        self.buffer_memory_preference
    }

    /// A builder for the vertices and indices, with device memory.
    pub fn new(vertices: Vec<TVertex>, indices: Vec<u32>) -> (b: Self)
        ensures
            b.spec_vertices() == vertices@,
            b.spec_indices() == indices@,
            b.spec_memory_preference() == BufferMemoryPreference::Device,
    {
        IndexedShapeBuilder { vertices, indices, buffer_memory_preference: BufferMemoryPreference::Device }
    }

    /// Set the preferred buffer placement.
    pub fn buffer_memory_preference(self, preference: BufferMemoryPreference) -> (b: Self)
        ensures
            b.spec_vertices() == self.spec_vertices(),
            b.spec_indices() == self.spec_indices(),
            b.spec_memory_preference() == preference,
    {
        IndexedShapeBuilder { buffer_memory_preference: preference, ..self }
    }

    /// Check indexed shape geometry: at least three vertices, a non-empty whole
    /// number of triangles, and every index in bounds; errors name the indexed shape.
    pub fn validate_geometry(vertices: &[TVertex], indices: &[u32]) -> (r: VMNLResult<()>)
        ensures
            r is Ok <==> valid_triangle_geometry(vertices@.len(), indices@),
            triangle_indices_outcome(r, vertices@.len(), indices@, "indexed shape"@),
    {
        validate_triangle_indices(vertices.len(), indices, "indexed shape")
    }

    /// Check the geometry, then return the `(vertex, index)` draw counts.
    pub fn draw_counts(&self) -> (r: VMNLResult<(u32, u32)>)
        ensures
            r is Ok <==> valid_triangle_geometry(self.spec_vertices().len(), self.spec_indices())
                && self.spec_vertices().len() <= u32::MAX && self.spec_indices().len() <= u32::MAX,
            r matches Ok(c) ==> c.0 == self.spec_vertices().len() && c.1 == self.spec_indices().len(),
            triangle_indices_outcome(r, self.spec_vertices().len(), self.spec_indices(), "indexed shape"@),
            valid_triangle_geometry(self.spec_vertices().len(), self.spec_indices())
                && self.spec_vertices().len() > u32::MAX ==> is_invalid_state(
                r,
                "vertex count out of bounds"@,
            ),
            valid_triangle_geometry(self.spec_vertices().len(), self.spec_indices())
                && self.spec_vertices().len() <= u32::MAX && self.spec_indices().len() > u32::MAX
                ==> is_invalid_state(r, "index count out of bounds"@),
    {
        validate_indexed_triangle_geometry(self.vertices.len(), self.indices.as_slice(), "indexed shape")
    }

    /// Take the vertices, indices and placement out of the builder.
    pub fn into_parts(self) -> (p: (Vec<TVertex>, Vec<u32>, BufferMemoryPreference))
        ensures
            p.0@ == self.spec_vertices(),
            p.1@ == self.spec_indices(),
            p.2 == self.spec_memory_preference(),
    {
        (self.vertices, self.indices, self.buffer_memory_preference)
    }
}

} // verus!
