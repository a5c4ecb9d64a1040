//! Bounding boxes and centering over anything that exposes positions.
//!
//! `bbox` folds componentwise minima and maxima over all positions,
//! starting from positive and negative infinity, exactly as the
//! accumulation runs; `centered` translates every position by half the sum
//! of the two bounds.  An empty geometry folds to the degenerate
//! `(+inf, -inf)` pair, which callers must guard.

use crate::mesh::{Mesh, Vertex};
use crate::vec3::{
    v3_add, v3_add_of, v3_div, v3_div_of, v3_max, v3_max_of, v3_min, v3_min_of, v3_sub, v3_sub_of,
    Vec3b,
};
use vstd::prelude::*;

verus! {

/// Bit pattern of `f32::INFINITY`.
pub const B_POS_INFINITY: u32 = 0x7F80_0000;

/// Bit pattern of `f32::NEG_INFINITY`.
pub const B_NEG_INFINITY: u32 = 0xFF80_0000;

/// Bit pattern of `2.0f32`.
pub const B_TWO: u32 = 0x4000_0000;

/// The fold's starting accumulator: every component of the minimum at
/// positive and of the maximum at negative infinity, so an empty fold
/// leaves the degenerate `(+inf, -inf)` pair.
pub open spec fn bounds_start() -> (Vec3b, Vec3b) {
    (
        Vec3b { x: B_POS_INFINITY, y: B_POS_INFINITY, z: B_POS_INFINITY },
        Vec3b { x: B_NEG_INFINITY, y: B_NEG_INFINITY, z: B_NEG_INFINITY },
    )
}

/// The bounds accumulator after the first `k` positions.
pub open spec fn fold_bounds(ps: Seq<Vec3b>, k: int) -> (Vec3b, Vec3b)
    decreases k,
{
    if k <= 0 {
        bounds_start()
    } else {
        let prev = fold_bounds(ps, k - 1);
        (v3_min_of(prev.0, ps[k - 1]), v3_max_of(prev.1, ps[k - 1]))
    }
}

/// The positions of a mesh's vertices, in order.
pub open spec fn mesh_positions(m: Mesh) -> Seq<Vec3b> {
    Seq::new(m.vertices@.len(), |i: int| m.vertices@[i].position)
}

/// The bounds accumulator after the boxes of the first `k` meshes have
/// been merged in.
pub open spec fn fold_mesh_bounds(ms: Seq<Mesh>, k: int) -> (Vec3b, Vec3b)
    decreases k,
{
    if k <= 0 {
        bounds_start()
    } else {
        let prev = fold_mesh_bounds(ms, k - 1);
        let bb = fold_bounds(mesh_positions(ms[k - 1]), mesh_positions(ms[k - 1]).len() as int);
        (v3_min_of(prev.0, bb.0), v3_max_of(prev.1, bb.1))
    }
}

/// The translation `centered` applies: half the sum of the two bounds.
pub open spec fn center_offset(bb: (Vec3b, Vec3b)) -> Vec3b {
    v3_div_of(v3_add_of(bb.0, bb.1), B_TWO)
}

/// `vs` with every position translated by `-d` and every normal kept.
pub open spec fn translated_vertices(vs: Seq<Vertex>, d: Vec3b) -> Seq<Vertex> {
    Seq::new(
        vs.len(),
        |i: int| Vertex { position: v3_sub_of(vs[i].position, d), normal: vs[i].normal },
    )
}

/// Axis-aligned bounding boxes.
pub trait Bounds {
    /// The `(min, max)` pair `bbox` returns.
    spec fn bbox_spec(&self) -> (Vec3b, Vec3b);

    /// The axis-aligned bounding box of all positions, `(min, max)`.
    fn bbox(&self) -> (r: (Vec3b, Vec3b))
        ensures
            r == self.bbox_spec(),
    ;
}

/// Copies translated so the bounding box is centered at the origin.
pub trait Centered: Sized {
    /// How the centered copy relates to the original.
    spec fn centered_ok(&self, r: &Self) -> bool;

    /// A copy whose positions are translated by minus half the sum of the
    /// bounding-box corners.
    fn centered(&self) -> (r: Self)
        ensures
            self.centered_ok(&r),
    ;
}

impl Bounds for Mesh {
    open spec fn bbox_spec(&self) -> (Vec3b, Vec3b) {
        fold_bounds(mesh_positions(*self), mesh_positions(*self).len() as int)
    }

    fn bbox(&self) -> (r: (Vec3b, Vec3b)) {
        let mut lo = Vec3b { x: B_POS_INFINITY, y: B_POS_INFINITY, z: B_POS_INFINITY };
        let mut hi = Vec3b { x: B_NEG_INFINITY, y: B_NEG_INFINITY, z: B_NEG_INFINITY };
        let mut i: usize = 0;
        while i < self.vertices.len()
            invariant
                i <= self.vertices@.len(),
                (lo, hi) == fold_bounds(mesh_positions(*self), i as int),
            decreases self.vertices@.len() - i,
        {
            let p = self.vertices[i].position;
            lo = v3_min(lo, p);
            hi = v3_max(hi, p);
            i = i + 1;
        }
        (lo, hi)
    }
}

impl Bounds for Vec<Mesh> {
    open spec fn bbox_spec(&self) -> (Vec3b, Vec3b) {
        fold_mesh_bounds(self@, self@.len() as int)
    }

    fn bbox(&self) -> (r: (Vec3b, Vec3b)) {
        let mut lo = Vec3b { x: B_POS_INFINITY, y: B_POS_INFINITY, z: B_POS_INFINITY };
        let mut hi = Vec3b { x: B_NEG_INFINITY, y: B_NEG_INFINITY, z: B_NEG_INFINITY };
        let mut i: usize = 0;
        while i < self.len()
            invariant
                i <= self@.len(),
                (lo, hi) == fold_mesh_bounds(self@, i as int),
            decreases self@.len() - i,
        {
            let bb = self[i].bbox();
            lo = v3_min(lo, bb.0);
            hi = v3_max(hi, bb.1);
            i = i + 1;
        }
        (lo, hi)
    }
}

/// A copy of `m` with every position translated by `-d`.
fn translate_mesh(m: &Mesh, d: Vec3b) -> (r: Mesh)
    ensures
        r.indices@ == m.indices@,
        r.vertices@ == translated_vertices(m.vertices@, d),
{
    let mut vertices: Vec<Vertex> = Vec::new();
    let mut i: usize = 0;
    while i < m.vertices.len()
        invariant
            i <= m.vertices@.len(),
            vertices@ =~= translated_vertices(m.vertices@, d).take(i as int),
        decreases m.vertices@.len() - i,
    {
        let v = m.vertices[i];
        vertices.push(Vertex { position: v3_sub(v.position, d), normal: v.normal });
        i = i + 1;
    }
    proof {
        assert(vertices@ =~= translated_vertices(m.vertices@, d));
    }
    let mut indices: Vec<u32> = Vec::new();
    let mut j: usize = 0;
    while j < m.indices.len()
        invariant
            j <= m.indices@.len(),
            indices@ =~= m.indices@.take(j as int),
        decreases m.indices@.len() - j,
    {
        indices.push(m.indices[j]);
        j = j + 1;
    }
    proof {
        assert(indices@ =~= m.indices@);
    }
    Mesh { vertices, indices }
}

impl Centered for Mesh {
    open spec fn centered_ok(&self, r: &Self) -> bool {
        &&& r.indices@ == self.indices@
        &&& r.vertices@ == translated_vertices(self.vertices@, center_offset(self.bbox_spec()))
    }

    fn centered(&self) -> (r: Self) {
        let bb = self.bbox();
        let diff = v3_div(v3_add(bb.0, bb.1), B_TWO);
        translate_mesh(self, diff)
    }
}

impl Centered for Vec<Mesh> {
    open spec fn centered_ok(&self, r: &Self) -> bool {
        &&& r@.len() == self@.len()
        &&& forall|i: int|
            0 <= i < self@.len() ==> (#[trigger] r@[i]).indices@ == self@[i].indices@
                && r@[i].vertices@ == translated_vertices(
                self@[i].vertices@,
                center_offset(self.bbox_spec()),
            )
    }

    fn centered(&self) -> (r: Self) {
        let bb = self.bbox();
        let diff = v3_div(v3_add(bb.0, bb.1), B_TWO);
        let mut out: Vec<Mesh> = Vec::new();
        let mut i: usize = 0;
        while i < self.len()
            invariant
                i <= self@.len(),
                out@.len() == i,
                forall|j: int|
                    0 <= j < i as int ==> (#[trigger] out@[j]).indices@ == self@[j].indices@
                        && out@[j].vertices@ == translated_vertices(self@[j].vertices@, diff),
                diff == center_offset(self.bbox_spec()),
            decreases self@.len() - i,
        {
            let t = translate_mesh(&self[i], diff);
            out.push(t);
            i = i + 1;
        }
        out
    }
}

} // verus!
