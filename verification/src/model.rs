//! Wavefront OBJ models: loading, conversion and material association.
//!
//! The OBJ and MTL sources are parsed by the `tobj` crate behind trusted
//! wrappers; everything after the parse is verified.  Conversion reverses
//! each triangle's winding, flips the sign of every z coordinate
//! (right-handed to left-handed), validates every index against the
//! vertex count, and associates each mesh with its material by name.

use crate::mesh::{Mesh, Vertex};
use crate::vec3::{Vec3b, SIGN_BIT};
use vstd::prelude::*;
use vstd::string::StrSliceExecFns;

verus! {

/// A model: named meshes with their materials.
#[derive(Debug)]
pub struct Model {
    pub name: String,
    pub meshes: Vec<Mesh>,
    pub materials: Vec<Material>,
    pub mesh_materials: Vec<Option<String>>,
}

/// A material: a name and a single albedo color.
#[derive(Debug)]
pub struct Material {
    pub name: String,
    pub albedo: Vec3b,
}

/// One mesh as the OBJ parser hands it over: flattened position bit
/// patterns, raw indices, and the material it references.
#[derive(Debug)]
pub struct ParsedMesh {
    pub positions: Vec<u32>,
    pub indices: Vec<u32>,
    pub material_id: Option<usize>,
}

/// One material as the MTL parser hands it over.
#[derive(Debug)]
pub struct ParsedMaterial {
    pub name: String,
    pub diffuse: Option<[u32; 3]>,
}

/// The meshes the OBJ parse of `obj` yields, material libraries resolved
/// against `files`; `None` when the source is rejected.  The parse is a
/// function of the byte buffers alone.
pub uninterp spec fn parsed_meshes_of(obj: Seq<u8>, files: Seq<(String, Vec<u8>)>) -> Option<
    Vec<ParsedMesh>,
>;

/// The materials the same OBJ parse yields; `None` when the source is
/// rejected.
pub uninterp spec fn parsed_materials_of(obj: Seq<u8>, files: Seq<(String, Vec<u8>)>) -> Option<
    Vec<ParsedMaterial>,
>;

/// Whether two strings hold the same characters.
fn str_chars_eq(a: &str, b: &str) -> (r: bool)
    ensures
        r == (a@ == b@),
{
    let na = a.unicode_len();
    let nb = b.unicode_len();
    if na != nb {
        return false;
    }
    let mut i: usize = 0;
    while i < na
        invariant
            i <= na,
            na == a@.len(),
            na == b@.len(),
            forall|j: int| 0 <= j < i ==> a@[j] == b@[j],
        decreases na - i,
    {
        if a.get_char(i) != b.get_char(i) {
            return false;
        }
        i = i + 1;
    }
    proof {
        assert(a@ =~= b@);
    }
    true
}

/// The contents of the first file whose name is exactly `name`.
fn find_file<'a>(files: &'a Vec<(String, Vec<u8>)>, name: &str) -> (r: Option<&'a Vec<u8>>)
    ensures
        match r {
            Some(b) => exists|i: int|
                0 <= i < files@.len() && (#[trigger] files@[i]).0@ == name@ && *b == files@[i].1,
            None => forall|i: int| 0 <= i < files@.len() ==> (#[trigger] files@[i]).0@ != name@,
        },
{
    let mut i: usize = 0;
    while i < files.len()
        invariant
            i <= files@.len(),
            forall|j: int| 0 <= j < i ==> (#[trigger] files@[j]).0@ != name@,
        decreases files@.len() - i,
    {
        if str_chars_eq(files[i].0.as_str(), name) {
            return Some(&files[i].1);
        }
        i = i + 1;
    }
    None
}

/// Relies on tobj::load_obj_buf with `triangulate` and `single_index`
/// set, and on tobj::load_mtl_buf as its material loader, reading each
/// requested material library from `files` (the lookup is the verified
/// `find_file`); the parsed meshes' `positions` (floats taken as bit
/// patterns), `indices` and `material_id` fields are carried over.
/// `None` when the OBJ source is rejected.  The parse depends on the
/// byte buffers alone, so its result is named.
///
/// Caution: on a material color line with fewer than three components
/// (`Kd 0.5 0.5`) tobj panics instead of erring, so such a material
/// library aborts the process — the fatal-startup outcome for malformed
/// model content.  The panicking inputs are not statable as a
/// precondition without reproducing tobj's MTL tokenization, and
/// catching the unwind is out of reach here, so the abort stands,
/// matching the upstream parser's behavior.
#[verifier::external_body]
fn load_obj_meshes(obj: &Vec<u8>, files: &Vec<(String, Vec<u8>)>) -> (r: Option<Vec<ParsedMesh>>)
    ensures
        r == parsed_meshes_of(obj@, files@),
{
    let o = tobj::LoadOptions { triangulate: true, single_index: true, ..Default::default() };
    let (models, _) = tobj::load_obj_buf(&mut obj.as_slice(), &o, |p| {
        match find_file(files, p.to_str().unwrap_or("")) {
            Some(b) => tobj::load_mtl_buf(&mut b.as_slice()),
            None => Err(tobj::LoadError::OpenFileFailed),
        }
    }).ok()?;
    Some(models.into_iter().map(|m| ParsedMesh {
        positions: m.mesh.positions.iter().map(|x| x.to_bits()).collect(),
        indices: m.mesh.indices,
        material_id: m.mesh.material_id,
    }).collect())
}

/// Relies on the same tobj::load_obj_buf call as `load_obj_meshes` (the
/// parse is deterministic), carrying over the parsed materials' `name`
/// and `diffuse` fields (floats taken as bit patterns).  `None` when the
/// OBJ source is rejected; a material library that is missing or that
/// tobj rejects with an error leaves the list empty.  A short material
/// color line makes tobj panic and aborts the process, as on
/// `load_obj_meshes`.
#[verifier::external_body]
fn load_obj_materials(obj: &Vec<u8>, files: &Vec<(String, Vec<u8>)>) -> (r: Option<
    Vec<ParsedMaterial>,
>)
    ensures
        r == parsed_materials_of(obj@, files@),
{
    let o = tobj::LoadOptions { triangulate: true, single_index: true, ..Default::default() };
    let (_, mats) = tobj::load_obj_buf(&mut obj.as_slice(), &o, |p| {
        match find_file(files, p.to_str().unwrap_or("")) {
            Some(b) => tobj::load_mtl_buf(&mut b.as_slice()),
            None => Err(tobj::LoadError::OpenFileFailed),
        }
    }).ok()?;
    Some(mats.unwrap_or_default().into_iter().map(|m| ParsedMaterial {
        name: m.name,
        diffuse: m.diffuse.map(|d| [d[0].to_bits(), d[1].to_bits(), d[2].to_bits()]),
    }).collect())
}

/// The index of the last occurrence of `c`, or -1.
pub open spec fn last_index_of(s: Seq<char>, c: char) -> int
    decreases s.len(),
{
    if s.len() == 0 {
        -1
    } else if s.last() == c {
        s.len() - 1
    } else {
        last_index_of(s.drop_last(), c)
    }
}

/// The extension of a file name: what follows the last dot of the final
/// path segment, empty when the segment has no dot or starts with its
/// only dot.
pub open spec fn extension_chars(s: Seq<char>) -> Seq<char> {
    let f = s.skip(last_index_of(s, '/') + 1);
    let d = last_index_of(f, '.');
    if d <= 0 {
        Seq::empty()
    } else {
        f.skip(d + 1)
    }
}

/// The last occurrence is never past the end and marks `c`.
proof fn lemma_last_index_of(s: Seq<char>, c: char)
    ensures
        -1 <= last_index_of(s, c) < s.len(),
    decreases s.len(),
{
    if s.len() > 0 && s.last() != c {
        lemma_last_index_of(s.drop_last(), c);
    }
}

/// Find the last occurrence of `c` at or after `start`: whether one
/// exists, and its absolute index.
fn last_index_in(name: &str, start: usize, c: char) -> (r: (bool, usize))
    requires
        start <= name@.len(),
    ensures
        ({
            let d = last_index_of(name@.skip(start as int), c);
            &&& r.0 == (d >= 0)
            &&& (r.0 ==> r.1 == d + start && r.1 < name@.len())
        }),
{
    let n = name.unicode_len();
    let mut found = false;
    let mut last: usize = 0;
    let mut i: usize = start;
    while i < n
        invariant
            start <= i <= n,
            n == name@.len(),
            ({
                let d = last_index_of(name@.subrange(start as int, i as int), c);
                &&& found == (d >= 0)
                &&& (found ==> last == d + start && last < n)
            }),
        decreases n - i,
    {
        proof {
            let g = name@.subrange(start as int, i as int + 1);
            assert(g.drop_last() =~= name@.subrange(start as int, i as int));
            assert(g.last() == name@[i as int]);
            lemma_last_index_of(name@.subrange(start as int, i as int), c);
        }
        if name.get_char(i) == c {
            found = true;
            last = i;
        }
        i = i + 1;
    }
    proof {
        assert(name@.subrange(start as int, n as int) =~= name@.skip(start as int));
    }
    (found, last)
}

/// The extension of a file name, as `extension_chars` defines it.
pub fn extension_from_filename(filename: &str) -> (r: &str)
    ensures
        r@ == extension_chars(filename@),
{
    let n = filename.unicode_len();
    let (has_slash, ls) = last_index_in(filename, 0, '/');
    proof {
        assert(filename@.skip(0) =~= filename@);
        lemma_last_index_of(filename@, '/');
    }
    let fstart = if has_slash {
        ls + 1
    } else {
        0
    };
    proof {
        assert(fstart as int == last_index_of(filename@, '/') + 1);
    }
    let (has_dot, ld) = last_index_in(filename, fstart, '.');
    proof {
        lemma_last_index_of(filename@.skip(fstart as int), '.');
    }
    if !has_dot || ld == fstart {
        let empty = "";
        proof {
            reveal_strlit("");
            assert(empty@ =~= extension_chars(filename@));
        }
        empty
    } else {
        let r = filename.substring_char(ld + 1, n);
        proof {
            let f = filename@.skip(fstart as int);
            let d = last_index_of(f, '.');
            assert(d == ld - fstart && d > 0);
            assert(f.skip(d + 1) =~= filename@.subrange(ld + 1, n as int));
            assert(r@ =~= extension_chars(filename@));
        }
        r
    }
}

/// Whether a file name's extension is `obj`.
pub open spec fn is_obj_name(s: Seq<char>) -> bool {
    extension_chars(s) == seq!['o', 'b', 'j']
}

/// The index of the first file whose name has the extension `obj`, or
/// -1 when none has it.
pub open spec fn first_obj_index(files: Seq<(String, Vec<u8>)>) -> int
    decreases files.len(),
{
    if files.len() == 0 {
        -1
    } else if is_obj_name(files.first().0@) {
        0
    } else {
        let rest = first_obj_index(files.drop_first());
        if rest == -1 {
            -1
        } else {
            rest + 1
        }
    }
}

/// What `first_obj_index` points at: -1 exactly when no name has the
/// extension, else the first that has it.
proof fn lemma_first_obj_index(files: Seq<(String, Vec<u8>)>)
    ensures
        ({
            let fi = first_obj_index(files);
            &&& -1 <= fi < files.len()
            &&& (fi == -1 ==> forall|j: int|
                0 <= j < files.len() ==> !is_obj_name((#[trigger] files[j]).0@))
            &&& (fi >= 0 ==> is_obj_name(files[fi].0@) && forall|j: int|
                0 <= j < fi ==> !is_obj_name((#[trigger] files[j]).0@))
        }),
    decreases files.len(),
{
    if files.len() > 0 && !is_obj_name(files.first().0@) {
        lemma_first_obj_index(files.drop_first());
        assert forall|j: int| 1 <= j < files.len() implies files.drop_first()[j - 1] == files[j] by {}
    }
}

/// Whether a file name's extension is `obj`.
fn is_obj_file(name: &str) -> (r: bool)
    ensures
        r == is_obj_name(name@),
{
    let e = extension_from_filename(name);
    let n = e.unicode_len();
    if n != 3 {
        proof {
            assert(extension_chars(name@) != seq!['o', 'b', 'j']);
        }
        return false;
    }
    let r = e.get_char(0) == 'o' && e.get_char(1) == 'b' && e.get_char(2) == 'j';
    proof {
        if r {
            assert(e@ =~= seq!['o', 'b', 'j']);
        } else {
            assert(e@ != seq!['o', 'b', 'j']);
        }
    }
    r
}

/// Whether a parsed mesh can be converted: whole vertices, whole
/// triangles, every index inside the vertex count.
pub open spec fn parsed_mesh_ok(p: ParsedMesh) -> bool {
    &&& p.positions@.len() % 3 == 0
    &&& p.indices@.len() % 3 == 0
    &&& forall|i: int|
        0 <= i < p.indices@.len() ==> (#[trigger] p.indices@[i]) < p.positions@.len() / 3
}

/// The vertices of a flattened position array, each z coordinate's sign
/// bit flipped, with zero normals.  For every non-NaN coordinate the
/// sign-bit flip is exactly the IEEE-754 multiplication by -1.0; for NaN
/// payloads the multiplication's result bits are not fixed, and the flip
/// is taken as the conversion.
pub open spec fn flipped_vertices(ps: Seq<u32>) -> Seq<Vertex> {
    Seq::new(
        ps.len() / 3,
        |i: int| Vertex {
            position: Vec3b { x: ps[3 * i], y: ps[3 * i + 1], z: ps[3 * i + 2] ^ SIGN_BIT },
            normal: Vec3b { x: 0u32, y: 0u32, z: 0u32 },
        },
    )
}

/// The first `t` triangles with their winding reversed: each index triple
/// in back-to-front order.
pub open spec fn reversed_indices(idx: Seq<u32>, t: int) -> Seq<u32>
    decreases t,
{
    if t <= 0 {
        Seq::empty()
    } else {
        reversed_indices(idx, t - 1) + seq![idx[3 * t - 1], idx[3 * t - 2], idx[3 * t - 3]]
    }
}

/// The albedo a parsed diffuse color gives: its bit patterns, or zero
/// when the material gave none.
pub open spec fn albedo_of(d: Option<[u32; 3]>) -> Vec3b {
    match d {
        Some(a) => Vec3b { x: a[0], y: a[1], z: a[2] },
        None => Vec3b { x: 0u32, y: 0u32, z: 0u32 },
    }
}

/// Convert one parsed mesh: `Some` exactly when it is convertible.
fn convert_mesh(p: &ParsedMesh) -> (r: Option<Mesh>)
    ensures
        match r {
            Some(m) => {
                &&& parsed_mesh_ok(*p)
                &&& m.wf()
                &&& m.vertices@ == flipped_vertices(p.positions@)
                &&& m.indices@ == reversed_indices(p.indices@, p.indices@.len() as int / 3)
            },
            None => !parsed_mesh_ok(*p),
        },
{
    let npos = p.positions.len();
    if npos % 3 != 0 {
        return None;
    }
    let nverts = npos / 3;
    let nidx = p.indices.len();
    if nidx % 3 != 0 {
        return None;
    }
    let ntris = nidx / 3;

    let mut k: usize = 0;
    while k < nidx
        invariant
            k <= nidx,
            nidx == p.indices@.len(),
            nverts == p.positions@.len() / 3,
            forall|i: int| 0 <= i < k ==> (#[trigger] p.indices@[i]) < nverts,
        decreases nidx - k,
    {
        if p.indices[k] as usize >= nverts {
            return None;
        }
        k = k + 1;
    }

    let mut vertices: Vec<Vertex> = Vec::new();
    let mut i: usize = 0;
    while i < nverts
        invariant
            i <= nverts,
            npos == p.positions@.len(),
            npos % 3 == 0,
            nverts == npos / 3,
            vertices@ =~= flipped_vertices(p.positions@).take(i as int),
        decreases nverts - i,
    {
        proof {
            vstd::arithmetic::div_mod::lemma_fundamental_div_mod(npos as int, 3);
        }
        let x = p.positions[3 * i];
        let y = p.positions[3 * i + 1];
        let z = p.positions[3 * i + 2] ^ SIGN_BIT;
        vertices.push(
            Vertex { position: Vec3b { x, y, z }, normal: Vec3b { x: 0, y: 0, z: 0 } },
        );
        i = i + 1;
        proof {
            assert(vertices@ =~= flipped_vertices(p.positions@).take(i as int));
        }
    }
    proof {
        assert(vertices@ =~= flipped_vertices(p.positions@));
    }

    let mut indices: Vec<u32> = Vec::new();
    let mut t: usize = 0;
    while t < ntris
        invariant
            t <= ntris,
            nidx == p.indices@.len(),
            nidx % 3 == 0,
            ntris == nidx / 3,
            nverts == p.positions@.len() / 3,
            forall|i2: int| 0 <= i2 < nidx ==> (#[trigger] p.indices@[i2]) < nverts,
            indices@ =~= reversed_indices(p.indices@, t as int),
            indices@.len() == 3 * t,
            forall|i2: int| 0 <= i2 < indices@.len() ==> (#[trigger] indices@[i2]) < nverts,
        decreases ntris - t,
    {
        proof {
            vstd::arithmetic::div_mod::lemma_fundamental_div_mod(nidx as int, 3);
        }
        indices.push(p.indices[3 * t + 2]);
        indices.push(p.indices[3 * t + 1]);
        indices.push(p.indices[3 * t]);
        t = t + 1;
        proof {
            assert(indices@ =~= reversed_indices(p.indices@, t as int));
        }
    }

    let m = Mesh { vertices, indices };
    proof {
        vstd::arithmetic::div_mod::lemma_fundamental_div_mod(nidx as int, 3);
        assert(m.indices@.len() % 3 == 0);
        assert(m.vertices@.len() == nverts);
        assert(m.wf());
    }
    Some(m)
}

/// The name association of one parsed mesh: the referenced material's
/// name, `None` when the mesh references none or the reference is out of
/// range (an unresolved association).
pub open spec fn association_ok(
    assoc: Option<String>,
    id: Option<usize>,
    mats: Seq<ParsedMaterial>,
) -> bool {
    match id {
        Some(mid) => if mid < mats.len() {
            assoc matches Some(nm) && nm@ == mats[mid as int].name@
        } else {
            assoc is None
        },
        None => assoc is None,
    }
}

/// How a built model relates to parsed data: meshes converted in order
/// (rewound, z flipped, well-formed), materials carried over with their
/// diffuse color as albedo, and one association per mesh resolved by
/// name.
pub open spec fn from_parsed_matches(
    model: Model,
    name: Seq<char>,
    meshes: Seq<ParsedMesh>,
    materials: Seq<ParsedMaterial>,
) -> bool {
    &&& model.name@ == name
    &&& model.meshes@.len() == meshes.len()
    &&& forall|i: int|
        0 <= i < meshes.len() ==> (#[trigger] model.meshes@[i]).wf() && model.meshes@[i].vertices@
            == flipped_vertices(meshes[i].positions@) && model.meshes@[i].indices@
            == reversed_indices(meshes[i].indices@, meshes[i].indices@.len() as int / 3)
    &&& model.materials@.len() == materials.len()
    &&& forall|i: int|
        0 <= i < materials.len() ==> (#[trigger] model.materials@[i]).name@ == materials[i].name@
            && model.materials@[i].albedo == albedo_of(materials[i].diffuse)
    &&& model.mesh_materials@.len() == meshes.len()
    &&& forall|i: int|
        0 <= i < meshes.len() ==> association_ok(
            #[trigger] model.mesh_materials@[i],
            meshes[i].material_id,
            materials,
        )
}

impl Model {
    /// Build a model from parsed meshes and materials: `Some` exactly
    /// when every mesh is convertible.  Triangles are rewound, z flipped,
    /// materials carried over with their diffuse color as albedo, and
    /// each mesh associated with its material's name.
    pub fn from_parsed(
        name: &str,
        meshes: &Vec<ParsedMesh>,
        materials: &Vec<ParsedMaterial>,
    ) -> (r: Option<Model>)
        ensures
            match r {
                Some(model) => {
                    &&& forall|i: int|
                        0 <= i < meshes@.len() ==> parsed_mesh_ok(#[trigger] meshes@[i])
                    &&& from_parsed_matches(model, name@, meshes@, materials@)
                },
                None => exists|i: int|
                    0 <= i < meshes@.len() && !parsed_mesh_ok(#[trigger] meshes@[i]),
            },
    {
        let mut out_meshes: Vec<Mesh> = Vec::new();
        let mut i: usize = 0;
        while i < meshes.len()
            invariant
                i <= meshes@.len(),
                out_meshes@.len() == i,
                forall|j: int| 0 <= j < i ==> parsed_mesh_ok(#[trigger] meshes@[j]),
                forall|j: int|
                    0 <= j < i ==> (#[trigger] out_meshes@[j]).wf() && out_meshes@[j].vertices@
                        == flipped_vertices(meshes@[j].positions@) && out_meshes@[j].indices@
                        == reversed_indices(
                        meshes@[j].indices@,
                        meshes@[j].indices@.len() as int / 3,
                    ),
            decreases meshes@.len() - i,
        {
            match convert_mesh(&meshes[i]) {
                Some(m) => {
                    out_meshes.push(m);
                },
                None => {
                    return None;
                },
            }
            i = i + 1;
        }

        let mut out_materials: Vec<Material> = Vec::new();
        let mut j: usize = 0;
        while j < materials.len()
            invariant
                j <= materials@.len(),
                out_materials@.len() == j,
                forall|a: int|
                    0 <= a < j ==> (#[trigger] out_materials@[a]).name@ == materials@[a].name@
                        && out_materials@[a].albedo == albedo_of(materials@[a].diffuse),
            decreases materials@.len() - j,
        {
            let m = &materials[j];
            let albedo = match m.diffuse {
                Some(a) => Vec3b { x: a[0], y: a[1], z: a[2] },
                None => Vec3b { x: 0, y: 0, z: 0 },
            };
            out_materials.push(Material { name: m.name.clone(), albedo });
            j = j + 1;
        }

        let mut mesh_materials: Vec<Option<String>> = Vec::new();
        let mut k: usize = 0;
        while k < meshes.len()
            invariant
                k <= meshes@.len(),
                mesh_materials@.len() == k,
                out_materials@.len() == materials@.len(),
                forall|a: int|
                    0 <= a < materials@.len() ==> (#[trigger] out_materials@[a]).name@
                        == materials@[a].name@,
                forall|a: int|
                    0 <= a < k ==> association_ok(
                        #[trigger] mesh_materials@[a],
                        meshes@[a].material_id,
                        materials@,
                    ),
            decreases meshes@.len() - k,
        {
            let assoc = match meshes[k].material_id {
                Some(mid) => {
                    if mid < out_materials.len() {
                        Some(out_materials[mid].name.clone())
                    } else {
                        None
                    }
                },
                None => None,
            };
            mesh_materials.push(assoc);
            k = k + 1;
        }

        Some(
            Model {
                name: name.to_owned(),
                meshes: out_meshes,
                materials: out_materials,
                mesh_materials,
            },
        )
    }

    /// Load a model from an OBJ source and its auxiliary files (material
    /// libraries), each a named byte buffer.  The first file whose name
    /// has the extension `obj` is handed to the parser; `None` exactly
    /// when no file has that extension, when the parser rejects the
    /// source, or when a parsed mesh fails validation.  Otherwise the
    /// model is the converted form of the named parse results.
    pub fn from_buffers(name: &str, files: &Vec<(String, Vec<u8>)>) -> (r: Option<Model>)
        ensures
            ({
                let fi = first_obj_index(files@);
                &&& (fi == -1 ==> r is None)
                &&& (fi >= 0 ==> match (
                    parsed_meshes_of(files@[fi].1@, files@),
                    parsed_materials_of(files@[fi].1@, files@),
                ) {
                    (Some(meshes), Some(materials)) => {
                        &&& (r is Some <==> (forall|i: int|
                            0 <= i < meshes@.len() ==> parsed_mesh_ok(#[trigger] meshes@[i])))
                        &&& match r {
                            Some(model) => from_parsed_matches(model, name@, meshes@, materials@),
                            None => true,
                        }
                    },
                    _ => r is None,
                })
            }),
    {
        let mut obj_at: usize = 0;
        let mut found = false;
        let mut i: usize = 0;
        while i < files.len() && !found
            invariant
                i <= files@.len(),
                !found ==> forall|j: int|
                    0 <= j < i ==> !is_obj_name((#[trigger] files@[j]).0@),
                found ==> obj_at < files@.len() && i == obj_at && is_obj_name(
                    files@[obj_at as int].0@,
                ) && forall|j: int| 0 <= j < obj_at ==> !is_obj_name((#[trigger] files@[j]).0@),
            decreases files@.len() - i + (if found {
                0int
            } else {
                1int
            }),
        {
            if is_obj_file(files[i].0.as_str()) {
                found = true;
                obj_at = i;
            } else {
                i = i + 1;
            }
        }
        proof {
            lemma_first_obj_index(files@);
        }
        if !found {
            proof {
                assert(first_obj_index(files@) == -1) by {
                    if first_obj_index(files@) >= 0 {
                        assert(is_obj_name(files@[first_obj_index(files@)].0@));
                    }
                }
            }
            return None;
        }
        proof {
            assert(first_obj_index(files@) == obj_at as int) by {
                let fi = first_obj_index(files@);
                if fi == -1 {
                    assert(!is_obj_name(files@[obj_at as int].0@));
                } else if fi < obj_at as int {
                    assert(!is_obj_name(files@[fi].0@));
                } else if fi > obj_at as int {
                    assert(!is_obj_name(files@[obj_at as int].0@));
                }
            }
        }

        let meshes = match load_obj_meshes(&files[obj_at].1, files) {
            Some(l) => l,
            None => {
                return None;
            },
        };
        let materials = match load_obj_materials(&files[obj_at].1, files) {
            Some(l) => l,
            None => {
                return None;
            },
        };

        match Model::from_parsed(name, &meshes, &materials) {
            Some(model) => Some(model),
            None => None,
        }
    }
}

} // verus!
