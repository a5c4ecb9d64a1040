//! Triangle meshes: CPU-side vertex and index arrays.
//!
//! A well-formed mesh has an index count that is a multiple of three and
//! every index inside the vertex array; the constructor validates both.
//! Normal generation accumulates per-face cross products into the adjacent
//! vertices (area-weighted, winding-order dependent) and normalizes once at
//! the end.  `create_buffers` lays the arrays out byte-for-byte as the GPU
//! expects them.

use crate::bytes::{le_bytes32, push_word, words_bytes};
use crate::vec3::{
    v3_add, v3_add_of, v3_cross, v3_cross_of, v3_normalize_or_zero, v3_normalize_or_zero_of,
    v3_sub, v3_sub_of, Vec3b,
};
use vstd::prelude::*;

verus! {

/// The index type of every mesh: triangle lists of 32-bit indices.
pub type Index = u32;

/// A single vertex: a position and a normal, each three bit-pattern words.
#[derive(Clone, Copy, PartialEq, Eq, Structural, Debug)]
pub struct Vertex {
    pub position: Vec3b,
    pub normal: Vec3b,
}

impl Vertex {
    /// A vertex at `position` with a zero normal.
    pub fn new(position: Vec3b) -> (r: Vertex)
        ensures
            r == (Vertex { position, normal: Vec3b { x: 0u32, y: 0u32, z: 0u32 } }),
    {
        Vertex { position, normal: Vec3b::zero() }
    }
}

/// A triangle mesh.
#[derive(Clone, PartialEq, Debug)]
pub struct Mesh {
    pub vertices: Vec<Vertex>,
    pub indices: Vec<Index>,
}

/// CPU images of the GPU vertex and index buffers, ready for upload, plus
/// the number of indices to draw.
#[derive(Clone, PartialEq, Debug)]
pub struct MeshBuffers {
    pub vbuf: Vec<u8>,
    pub ibuf: Vec<u8>,
    pub nelems: u32,
}

/// Whether `mb` holds exactly the upload images and element count of `m`.
pub open spec fn buffers_match(mb: MeshBuffers, m: Mesh) -> bool {
    &&& mb.vbuf@ == vertices_bytes(m.vertices@, m.vertices@.len() as int)
    &&& mb.ibuf@ == words_bytes(m.indices@, m.indices@.len() as int)
    &&& mb.nelems == m.indices@.len()
}

/// The 32 bytes of one vertex as the GPU reads it: position words, one
/// padding word, normal words, one padding word.
pub open spec fn vertex_bytes(v: Vertex) -> Seq<u8> {
    le_bytes32(v.position.x) + le_bytes32(v.position.y) + le_bytes32(v.position.z) + le_bytes32(
        0u32,
    ) + le_bytes32(v.normal.x) + le_bytes32(v.normal.y) + le_bytes32(v.normal.z) + le_bytes32(0u32)
}

/// The bytes of the first `k` vertices, in order.
pub open spec fn vertices_bytes(vs: Seq<Vertex>, k: int) -> Seq<u8>
    decreases k,
{
    if k <= 0 {
        Seq::empty()
    } else {
        vertices_bytes(vs, k - 1) + vertex_bytes(vs[k - 1])
    }
}

/// The cross product of the two edge vectors of face `f`, taken from the
/// face's first vertex.
pub open spec fn face_cross(vs: Seq<Vertex>, idx: Seq<Index>, f: int) -> Vec3b {
    let p0 = vs[idx[3 * f] as int].position;
    let p1 = vs[idx[3 * f + 1] as int].position;
    let p2 = vs[idx[3 * f + 2] as int].position;
    v3_cross_of(v3_sub_of(p1, p0), v3_sub_of(p2, p0))
}

/// `vs` with `n` added to the normal of vertex `i`.
pub open spec fn add_normal(vs: Seq<Vertex>, i: int, n: Vec3b) -> Seq<Vertex> {
    vs.update(i, Vertex { position: vs[i].position, normal: v3_add_of(vs[i].normal, n) })
}

/// `vs` after face `f`'s cross product is added to its three vertices'
/// normals, one after the other.
pub open spec fn accumulate_face(vs: Seq<Vertex>, idx: Seq<Index>, f: int) -> Seq<Vertex> {
    let n = face_cross(vs, idx, f);
    let vs1 = add_normal(vs, idx[3 * f] as int, n);
    let vs2 = add_normal(vs1, idx[3 * f + 1] as int, n);
    add_normal(vs2, idx[3 * f + 2] as int, n)
}

/// `vs` after the first `k` faces have been accumulated.
pub open spec fn accumulated_normals(vs: Seq<Vertex>, idx: Seq<Index>, k: int) -> Seq<Vertex>
    decreases k,
{
    if k <= 0 {
        vs
    } else {
        accumulate_face(accumulated_normals(vs, idx, k - 1), idx, k - 1)
    }
}

/// Every vertex with its normal scaled to unit length (or zeroed when it
/// has zero or non-finite length).
pub open spec fn normalized_vertices(vs: Seq<Vertex>) -> Seq<Vertex> {
    Seq::new(
        vs.len(),
        |i: int| Vertex { position: vs[i].position, normal: v3_normalize_or_zero_of(vs[i].normal) },
    )
}

/// Accumulation touches only normals: the length and the positions are
/// unchanged.
pub proof fn lemma_accumulated_shape(vs: Seq<Vertex>, idx: Seq<Index>, k: int)
    requires
        forall|i: int| 0 <= i < idx.len() ==> (#[trigger] idx[i]) < vs.len(),
        3 * k <= idx.len(),
        0 <= k,
    ensures
        accumulated_normals(vs, idx, k).len() == vs.len(),
        forall|i: int|
            0 <= i < vs.len() ==> (#[trigger] accumulated_normals(vs, idx, k)[i]).position
                == vs[i].position,
    decreases k,
{
    if k > 0 {
        lemma_accumulated_shape(vs, idx, k - 1);
    }
}

impl Mesh {
    /// Every index lies inside the vertex array and whole triangles only.
    pub open spec fn wf(&self) -> bool {
        &&& self.indices@.len() % 3 == 0
        &&& forall|i: int|
            0 <= i < self.indices@.len() ==> (#[trigger] self.indices@[i]) < self.vertices@.len()
    }

    /// Build a mesh after checking well-formedness: `Some` exactly when the
    /// index count is a multiple of three and every index is in bounds.
    pub fn try_new(vertices: Vec<Vertex>, indices: Vec<Index>) -> (r: Option<Mesh>)
        ensures
            match r {
                Some(m) => m.wf() && m.vertices == vertices && m.indices == indices,
                None => !(Mesh { vertices, indices }).wf(),
            },
    {
        if indices.len() % 3 != 0 {
            return None;
        }
        let nverts = vertices.len();
        let mut i: usize = 0;
        while i < indices.len()
            invariant
                i <= indices@.len(),
                nverts == vertices@.len(),
                forall|j: int| 0 <= j < i ==> (#[trigger] indices@[j]) < nverts,
            decreases indices@.len() - i,
        {
            if indices[i] as usize >= nverts {
                return None;
            }
            i = i + 1;
        }
        Some(Mesh { vertices, indices })
    }

    /// The vertex addressed relative to a face: the first index of face
    /// `face`, offset by `vert`.
    pub fn vertex(&self, face: usize, vert: usize) -> (r: Vertex)
        requires
            3 * (face as int) < self.indices@.len(),
            self.indices@[3 * (face as int)] + vert < self.vertices@.len(),
        ensures
            r == self.vertices@[self.indices@[3 * (face as int)] + vert],
    {
        let n = self.indices.len();
        assert(3 * (face as int) < n as int);
        let idx = self.indices[face * 3] as usize;
        let nv = self.vertices.len();
        assert(idx + vert < nv as int);
        self.vertices[idx + vert]
    }

    /// Accumulate each face's edge cross product into its three vertices'
    /// normals, then normalize every vertex normal once.
    ///
    /// The cross product's magnitude is twice the face's area, so the final
    /// normals are area-weighted averages of the adjacent face normals.  A
    /// vertex whose accumulated normal has zero length keeps a zero normal
    /// instead of a NaN one.
    pub fn generate_normals(&mut self)
        requires
            old(self).wf(),
        ensures
            final(self).indices@ == old(self).indices@,
            final(self).vertices@ == normalized_vertices(
                accumulated_normals(
                    old(self).vertices@,
                    old(self).indices@,
                    old(self).indices@.len() as int / 3,
                ),
            ),
            final(self).wf(),
    {
        let ghost vs0 = self.vertices@;
        let ghost idx0 = self.indices@;
        let nidx = self.indices.len();
        let nfaces = nidx / 3;
        let nverts = self.vertices.len();
        let mut f: usize = 0;
        while f < nfaces
            invariant
                f <= nfaces,
                nidx == idx0.len(),
                nfaces == idx0.len() / 3,
                idx0.len() % 3 == 0,
                nverts == vs0.len(),
                self.indices@ == idx0,
                forall|i: int| 0 <= i < idx0.len() ==> (#[trigger] idx0[i]) < nverts,
                self.vertices@ == accumulated_normals(vs0, idx0, f as int),
                self.vertices@.len() == nverts,
            decreases nfaces - f,
        {
            proof {
                lemma_accumulated_shape(vs0, idx0, f as int);
                vstd::arithmetic::div_mod::lemma_fundamental_div_mod(idx0.len() as int, 3);
                assert(3 * (f as int) + 2 < idx0.len());
            }
            let i0 = self.indices[3 * f] as usize;
            let i1 = self.indices[3 * f + 1] as usize;
            let i2 = self.indices[3 * f + 2] as usize;

            let v1 = self.vertices[i0];
            let v2 = self.vertices[i1];
            let v3 = self.vertices[i2];

            let e1 = v3_sub(v2.position, v1.position);
            let e2 = v3_sub(v3.position, v1.position);
            let n = v3_cross(e1, e2);

            let mut va = self.vertices[i0];
            va.normal = v3_add(va.normal, n);
            self.vertices[i0] = va;

            let mut vb = self.vertices[i1];
            vb.normal = v3_add(vb.normal, n);
            self.vertices[i1] = vb;

            let mut vc = self.vertices[i2];
            vc.normal = v3_add(vc.normal, n);
            self.vertices[i2] = vc;

            proof {
                assert(self.vertices@ =~= accumulated_normals(vs0, idx0, f as int + 1));
            }
            f = f + 1;
        }

        let ghost acc = self.vertices@;
        let mut i: usize = 0;
        while i < nverts
            invariant
                i <= nverts,
                nverts == acc.len(),
                self.indices@ == idx0,
                self.vertices@.len() == acc.len(),
                forall|j: int| 0 <= j < i ==> self.vertices@[j] == normalized_vertices(acc)[j],
                forall|j: int| i <= j < acc.len() ==> self.vertices@[j] == acc[j],
            decreases nverts - i,
        {
            let mut v = self.vertices[i];
            v.normal = v3_normalize_or_zero(v.normal);
            self.vertices[i] = v;
            i = i + 1;
        }
        proof {
            assert(self.vertices@ =~= normalized_vertices(acc));
            lemma_accumulated_shape(vs0, idx0, (idx0.len() / 3) as int);
        }
    }

    /// Lay the vertex and index arrays out as upload-ready byte buffers:
    /// 32 bytes per vertex and four little-endian bytes per index, plus the
    /// number of indices to draw.
    pub fn create_buffers(&self) -> (r: MeshBuffers)
        requires
            self.indices@.len() <= u32::MAX,
        ensures
            buffers_match(r, *self),
            r.vbuf@ == vertices_bytes(self.vertices@, self.vertices@.len() as int),
            r.ibuf@ == words_bytes(self.indices@, self.indices@.len() as int),
            r.nelems == self.indices@.len(),
    {
        let mut vbuf: Vec<u8> = Vec::new();
        let mut i: usize = 0;
        while i < self.vertices.len()
            invariant
                i <= self.vertices@.len(),
                vbuf@ == vertices_bytes(self.vertices@, i as int),
            decreases self.vertices@.len() - i,
        {
            let v = self.vertices[i];
            push_word(&mut vbuf, v.position.x);
            push_word(&mut vbuf, v.position.y);
            push_word(&mut vbuf, v.position.z);
            push_word(&mut vbuf, 0);
            push_word(&mut vbuf, v.normal.x);
            push_word(&mut vbuf, v.normal.y);
            push_word(&mut vbuf, v.normal.z);
            push_word(&mut vbuf, 0);
            proof {
                assert(vbuf@ =~= vertices_bytes(self.vertices@, i as int + 1));
            }
            i = i + 1;
        }

        let mut ibuf: Vec<u8> = Vec::new();
        let mut j: usize = 0;
        while j < self.indices.len()
            invariant
                j <= self.indices@.len(),
                ibuf@ == words_bytes(self.indices@, j as int),
            decreases self.indices@.len() - j,
        {
            push_word(&mut ibuf, self.indices[j]);
            proof {
                assert(ibuf@ =~= words_bytes(self.indices@, j as int + 1));
            }
            j = j + 1;
        }

        let nelems = self.indices.len() as u32;
        MeshBuffers { vbuf, ibuf, nelems }
    }
}

/// The vertex attribute formats the pipelines use.
#[derive(Clone, Copy, PartialEq, Eq, Structural, Debug)]
pub enum VertexFormat {
    Float32x3,
}

/// One vertex attribute: where it sits in the vertex and which shader
/// location reads it.
#[derive(Clone, Copy, PartialEq, Eq, Structural, Debug)]
pub struct VertexAttributeDesc {
    pub offset: u32,
    pub shader_location: u32,
    pub format: VertexFormat,
}

/// The layout of a vertex buffer: stride, stepping and the two
/// attributes every pipeline of this renderer reads.
#[derive(Clone, Copy, PartialEq, Eq, Structural, Debug)]
pub struct VertexBufferLayoutDesc {
    /// Bytes between consecutive vertices.
    pub array_stride: u32,
    /// Advance per vertex (not per instance).
    pub step_vertex: bool,
    /// The position attribute.
    pub attr_position: VertexAttributeDesc,
    /// The normal attribute.
    pub attr_normal: VertexAttributeDesc,
}

/// The layout of `Vertex`: 32 bytes per vertex, stepped per vertex, the
/// position at offset 0 and the normal after the position's padded 16
/// bytes, at shader locations 0 and 1.
pub open spec fn vertex_buffer_layout() -> VertexBufferLayoutDesc {
    VertexBufferLayoutDesc {
        array_stride: 32u32,
        step_vertex: true,
        attr_position: VertexAttributeDesc {
            offset: 0u32,
            shader_location: 0u32,
            format: VertexFormat::Float32x3,
        },
        attr_normal: VertexAttributeDesc {
            offset: 16u32,
            shader_location: 1u32,
            format: VertexFormat::Float32x3,
        },
    }
}

impl Vertex {
    /// How the GPU walks the vertex buffer.
    pub fn buffer_layout() -> (r: VertexBufferLayoutDesc)
        ensures
            r == vertex_buffer_layout(),
    {
        VertexBufferLayoutDesc {
            array_stride: 32,
            step_vertex: true,
            attr_position: VertexAttributeDesc {
                offset: 0,
                shader_location: 0,
                format: VertexFormat::Float32x3,
            },
            attr_normal: VertexAttributeDesc {
                offset: 16,
                shader_location: 1,
                format: VertexFormat::Float32x3,
            },
        }
    }
}

/// The index formats the GPU understands.
#[derive(Clone, Copy, PartialEq, Eq, Structural, Debug)]
pub enum IndexKind {
    Uint16,
    Uint32,
}

/// The GPU index format of an index element type.
pub trait IndexFormat {
    /// The format this type is drawn with.
    spec fn format_spec() -> IndexKind;

    /// The format this type is drawn with.
    fn format() -> (r: IndexKind)
        ensures
            r == Self::format_spec(),
    ;
}

impl IndexFormat for u16 {
    open spec fn format_spec() -> IndexKind {
        IndexKind::Uint16
    }

    fn format() -> (r: IndexKind) {
        IndexKind::Uint16
    }
}

impl IndexFormat for u32 {
    open spec fn format_spec() -> IndexKind {
        IndexKind::Uint32
    }

    fn format() -> (r: IndexKind) {
        IndexKind::Uint32
    }
}

} // verus!
