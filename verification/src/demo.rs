//! The procedural demo mesh: a subdivided icosphere.
//!
//! The generator is the `genmesh` crate behind trusted wrappers; the
//! generated arrays are validated here, so every returned mesh is
//! well-formed.

use crate::mesh::{Mesh, Vertex};
use crate::vec3::Vec3b;
use vstd::prelude::*;

verus! {

/// The flattened vertex positions of the unit icosphere with `n`
/// subdivisions, three words per vertex.
pub uninterp spec fn ico_positions_of(n: usize) -> Seq<u32>;

/// The triangle indices of the unit icosphere with `n` subdivisions,
/// three per face.
pub uninterp spec fn ico_indices_of(n: usize) -> Seq<u32>;

/// Relies on genmesh's IcoSphere::subdivide and its shared-vertex
/// iteration: the unit sphere's vertex positions, three floats per
/// vertex, each taken as its bit pattern.
#[verifier::external_body]
fn icosphere_positions(n: usize) -> (r: Vec<u32>)
    ensures
        r@ == ico_positions_of(n),
{
    genmesh::generators::SharedVertex::shared_vertex_iter(&genmesh::generators::IcoSphere::subdivide(n))
        .flat_map(|v| [v.pos.x.to_bits(), v.pos.y.to_bits(), v.pos.z.to_bits()])
        .collect()
}

/// Relies on genmesh's IcoSphere::subdivide with its indexed-polygon
/// iteration and triangulation: the sphere's triangle indices, in face
/// order.
#[verifier::external_body]
fn icosphere_indices(n: usize) -> (r: Vec<u32>)
    ensures
        r@ == ico_indices_of(n),
{
    genmesh::Triangulate::triangulate(genmesh::generators::IndexedPolygon::indexed_polygon_iter(
        &genmesh::generators::IcoSphere::subdivide(n),
    ))
        .flat_map(|f| [f.x as u32, f.y as u32, f.z as u32])
        .collect()
}

/// The vertices of a flattened position array, with zero normals.
pub open spec fn grouped_vertices(ps: Seq<u32>) -> Seq<Vertex> {
    Seq::new(
        ps.len() / 3,
        |i: int| Vertex {
            position: Vec3b { x: ps[3 * i], y: ps[3 * i + 1], z: ps[3 * i + 2] },
            normal: Vec3b { x: 0u32, y: 0u32, z: 0u32 },
        },
    )
}

/// Whether generated arrays form a mesh: whole vertices, whole triangles,
/// every index inside the vertex count.
pub open spec fn generated_ok(ps: Seq<u32>, idx: Seq<u32>) -> bool {
    &&& ps.len() % 3 == 0
    &&& idx.len() % 3 == 0
    &&& forall|i: int| 0 <= i < idx.len() ==> (#[trigger] idx[i]) < ps.len() / 3
}

/// The demo mesh: a once-subdivided icosphere, validated.  `Some` exactly
/// when the generated arrays form a mesh; a returned mesh is well-formed.
pub fn demo_mesh() -> (r: Option<Mesh>)
    ensures
        match r {
            Some(m) => {
                &&& generated_ok(ico_positions_of(1), ico_indices_of(1))
                &&& m.wf()
                &&& m.vertices@ == grouped_vertices(ico_positions_of(1))
                &&& m.indices@ == ico_indices_of(1)
            },
            None => !generated_ok(ico_positions_of(1), ico_indices_of(1)),
        },
{
    let ps = icosphere_positions(1);
    let idx = icosphere_indices(1);

    let npos = ps.len();
    if npos % 3 != 0 {
        return None;
    }
    let nverts = npos / 3;

    let mut vertices: Vec<Vertex> = Vec::new();
    let mut i: usize = 0;
    while i < nverts
        invariant
            i <= nverts,
            npos == ps@.len(),
            npos % 3 == 0,
            nverts == npos / 3,
            vertices@ =~= grouped_vertices(ps@).take(i as int),
        decreases nverts - i,
    {
        proof {
            vstd::arithmetic::div_mod::lemma_fundamental_div_mod(npos as int, 3);
        }
        let x = ps[3 * i];
        let y = ps[3 * i + 1];
        let z = ps[3 * i + 2];
        vertices.push(Vertex { position: Vec3b { x, y, z }, normal: Vec3b { x: 0, y: 0, z: 0 } });
        i = i + 1;
        proof {
            assert(vertices@ =~= grouped_vertices(ps@).take(i as int));
        }
    }
    proof {
        assert(vertices@ =~= grouped_vertices(ps@));
    }

    match Mesh::try_new(vertices, idx) {
        Some(m) => {
            proof {
                vstd::arithmetic::div_mod::lemma_fundamental_div_mod(npos as int, 3);
            }
            Some(m)
        },
        None => None,
    }
}

} // verus!
