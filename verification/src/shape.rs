//! Procedurally generated shapes that bypass the importer.

use vstd::prelude::*;

verus! {

/// A unit cube, half an extent on each side of the origin: 24 vertices
/// (four per face), flat per-face normals, and 36 indices forming two
/// triangles per face. The arrays feed `Scene::add_shape` directly.
#[derive(Debug)]
pub struct Cube {
    pub vertices: Vec<i64>,
    pub normals: Vec<i64>,
    pub indices: Vec<u32>,
}

impl Cube {
    pub fn new() -> (r: Cube)
        ensures
            r.vertices@.len() == 72,
            r.normals@.len() == 72,
            r.indices@.len() == 36,
            forall|i: int| 0 <= i < 36 ==> (r.indices@[i] as int) < 24,
    {
        let vertices: Vec<i64> = vec![
        32768i64, -32768i64, -32768i64, 32768i64, 32768i64, -32768i64, 32768i64, 32768i64, 32768i64, 32768i64, -32768i64, 32768i64,
        -32768i64, -32768i64, 32768i64, -32768i64, 32768i64, 32768i64, -32768i64, 32768i64, -32768i64, -32768i64, -32768i64, -32768i64,
        -32768i64, 32768i64, -32768i64, -32768i64, 32768i64, 32768i64, 32768i64, 32768i64, 32768i64, 32768i64, 32768i64, -32768i64,
        -32768i64, -32768i64, 32768i64, -32768i64, -32768i64, -32768i64, 32768i64, -32768i64, -32768i64, 32768i64, -32768i64, 32768i64,
        -32768i64, -32768i64, 32768i64, 32768i64, -32768i64, 32768i64, 32768i64, 32768i64, 32768i64, -32768i64, 32768i64, 32768i64,
        32768i64, -32768i64, -32768i64, -32768i64, -32768i64, -32768i64, -32768i64, 32768i64, -32768i64, 32768i64, 32768i64, -32768i64,
        ];
        let normals: Vec<i64> = vec![
        65536i64, 0i64, 0i64, 65536i64, 0i64, 0i64, 65536i64, 0i64, 0i64, 65536i64, 0i64, 0i64,
        -65536i64, 0i64, 0i64, -65536i64, 0i64, 0i64, -65536i64, 0i64, 0i64, -65536i64, 0i64, 0i64,
        0i64, 65536i64, 0i64, 0i64, 65536i64, 0i64, 0i64, 65536i64, 0i64, 0i64, 65536i64, 0i64,
        0i64, -65536i64, 0i64, 0i64, -65536i64, 0i64, 0i64, -65536i64, 0i64, 0i64, -65536i64, 0i64,
        0i64, 0i64, 65536i64, 0i64, 0i64, 65536i64, 0i64, 0i64, 65536i64, 0i64, 0i64, 65536i64,
        0i64, 0i64, -65536i64, 0i64, 0i64, -65536i64, 0i64, 0i64, -65536i64, 0i64, 0i64, -65536i64,
        ];
        let indices: Vec<u32> = vec![
        0u32, 1u32, 2u32, 0u32, 2u32, 3u32, 4u32, 5u32, 6u32, 4u32, 6u32, 7u32,
        8u32, 9u32, 10u32, 8u32, 10u32, 11u32, 12u32, 13u32, 14u32, 12u32, 14u32, 15u32,
        16u32, 17u32, 18u32, 16u32, 18u32, 19u32, 20u32, 21u32, 22u32, 20u32, 22u32, 23u32,
        ];
        proof {
            assert(forall|i: int| 0 <= i < 36 ==> (indices@[i] as int) < 24) by {
                assert(indices@.len() == 36);
            }
        }
        Cube { vertices, normals, indices }
    }
}

} // verus!
