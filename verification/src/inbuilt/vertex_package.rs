//! The geometry of the fixed pipeline: how many vertices and indices were
//! uploaded. The buffers themselves live on the device and never change.

use vstd::prelude::*;

verus! {

/// The counts of a vertex buffer and an index buffer that were filled once.
#[derive(Clone, Copy, Debug, PartialEq, Eq, Structural)]
pub struct VertexPackage {
    num_vertices: u32,
    num_indices: u32,
}

impl VertexPackage {
    pub closed spec fn spec_num_vertices(&self) -> u32 {
        self.num_vertices
    }

    pub closed spec fn spec_num_indices(&self) -> u32 {
        self.num_indices
    }

    /// Records an upload of `num_vertices` vertices and `num_indices`
    /// indices.
    pub fn new(num_vertices: u32, num_indices: u32) -> (r: VertexPackage)
        ensures
            r.num_vertices() == num_vertices,
            r.num_indices() == num_indices,
    {
        VertexPackage { num_vertices, num_indices }
    }

    /// The number of vertices in the vertex buffer.
    #[verifier::when_used_as_spec(spec_num_vertices)]
    pub fn num_vertices(&self) -> (r: u32)
        ensures
            r == self.spec_num_vertices(),
    {
        self.num_vertices
    }

    /// The number of indices in the index buffer.
    #[verifier::when_used_as_spec(spec_num_indices)]
    pub fn num_indices(&self) -> (r: u32)
        ensures
            r == self.spec_num_indices(),
    {
        self.num_indices
    }
}

} // verus!
