//! Imported mesh data: ordered submeshes, immutable once built.

use vstd::prelude::*;
use crate::material::Material;
use crate::vertex::VertexPosNorTexTanBi;

verus! {

/// A contiguous draw unit: one vertex list, one index list, one material.
#[derive(Debug)]
pub struct SubMeshData {
    pub vertices: Vec<VertexPosNorTexTanBi>,
    pub indices: Vec<u32>,
    pub material: Material,
}

impl SubMeshData {
    /// Every index references a vertex in range, and the material is
    /// well-formed.
    pub open spec fn wf(self) -> bool {
        &&& forall|i: int|
            0 <= i < self.indices@.len() ==> (self.indices@[i] as int) < self.vertices@.len()
        &&& self.material.wf()
    }
}

/// An imported mesh: an ordered sequence of submeshes.
#[derive(Debug)]
pub struct MeshData {
    pub submesh_data: Vec<SubMeshData>,
}

impl MeshData {
    pub open spec fn wf(self) -> bool {
        forall|i: int| 0 <= i < self.submesh_data@.len() ==> self.submesh_data@[i].wf()
    }
}

/// Copy an index buffer; the copy holds the same indices.
pub fn copy_u32s(v: &Vec<u32>) -> (r: Vec<u32>)
    ensures
        r@ == v@,
{
    let r: Vec<u32> = v.clone();
    proof {
        assert forall|i: int| 0 <= i < v@.len() implies r@[i] == v@[i] by {
            assert(vstd::pervasive::cloned::<u32>(v[i], r[i]));
        }
        assert(r@ =~= v@);
    }
    r
}

/// Copy a vertex buffer; the copy holds the same vertices.
pub fn copy_vertices(v: &Vec<VertexPosNorTexTanBi>) -> (r: Vec<VertexPosNorTexTanBi>)
    ensures
        r@ == v@,
{
    let r: Vec<VertexPosNorTexTanBi> = v.clone();
    proof {
        assert forall|i: int| 0 <= i < v@.len() implies r@[i] == v@[i] by {
            assert(vstd::pervasive::cloned::<VertexPosNorTexTanBi>(v[i], r[i]));
        }
        assert(r@ =~= v@);
    }
    r
}

} // verus!
