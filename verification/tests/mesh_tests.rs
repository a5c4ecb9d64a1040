//! Mesh validation, normal generation and buffer layout.

use rendercore::mesh::{IndexKind, Mesh, Vertex, VertexFormat};
use rendercore::vec3::Vec3b;

fn vert(x: f32, y: f32, z: f32) -> Vertex {
    Vertex::new(Vec3b { x: x.to_bits(), y: y.to_bits(), z: z.to_bits() })
}

fn normal_of(v: &Vertex) -> glam::Vec3 {
    glam::Vec3::new(
        f32::from_bits(v.normal.x),
        f32::from_bits(v.normal.y),
        f32::from_bits(v.normal.z),
    )
}

fn position_of(v: &Vertex) -> glam::Vec3 {
    glam::Vec3::new(
        f32::from_bits(v.position.x),
        f32::from_bits(v.position.y),
        f32::from_bits(v.position.z),
    )
}

/// A unit cube: 8 corners, 12 triangles, outward winding (left-handed
/// convention: +z faces away, front faces wound clockwise seen from
/// outside).
fn unit_cube() -> Mesh {
    let vertices = vec![
        vert(0.0, 0.0, 0.0),
        vert(1.0, 0.0, 0.0),
        vert(1.0, 1.0, 0.0),
        vert(0.0, 1.0, 0.0),
        vert(0.0, 0.0, 1.0),
        vert(1.0, 0.0, 1.0),
        vert(1.0, 1.0, 1.0),
        vert(0.0, 1.0, 1.0),
    ];
    let indices: Vec<u32> = vec![
        0, 2, 1, 0, 3, 2, // z = 0 face, normal -z
        4, 5, 6, 4, 6, 7, // z = 1 face, normal +z
        0, 1, 5, 0, 5, 4, // y = 0 face, normal -y
        3, 6, 2, 3, 7, 6, // y = 1 face, normal +y
        0, 7, 3, 0, 4, 7, // x = 0 face, normal -x
        1, 2, 6, 1, 6, 5, // x = 1 face, normal +x
    ];
    Mesh::try_new(vertices, indices).expect("cube is well-formed")
}

#[test]
fn try_new_accepts_whole_triangles_in_bounds() {
    let m = Mesh::try_new(vec![vert(0.0, 0.0, 0.0); 3], vec![0, 1, 2]);
    assert!(m.is_some());
}

#[test]
fn try_new_rejects_out_of_bounds_index() {
    let m = Mesh::try_new(vec![vert(0.0, 0.0, 0.0); 3], vec![0, 1, 3]);
    assert!(m.is_none());
}

#[test]
fn try_new_rejects_partial_triangle() {
    let m = Mesh::try_new(vec![vert(0.0, 0.0, 0.0); 3], vec![0, 1]);
    assert!(m.is_none());
}

#[test]
fn vertex_reads_through_the_face_index() {
    let m = unit_cube();
    // Face 1 starts at index 3, whose value is 0; vertex(1, 2) is the
    // vertex two past it.
    let v = m.vertex(1, 2);
    assert_eq!(position_of(&v), glam::Vec3::new(1.0, 1.0, 0.0));
}

#[test]
fn single_triangle_normals_follow_the_right_hand_rule() {
    // One triangle in the xy plane, counter-clockwise: its cross product
    // e1 x e2 is +z, so every vertex gets the unit +z normal.
    let mut m = Mesh::try_new(
        vec![vert(0.0, 0.0, 0.0), vert(1.0, 0.0, 0.0), vert(0.0, 1.0, 0.0)],
        vec![0, 1, 2],
    )
    .unwrap();
    m.generate_normals();
    for v in &m.vertices {
        assert_eq!(normal_of(v), glam::Vec3::new(0.0, 0.0, 1.0));
    }
}

#[test]
fn cube_normals_average_adjacent_faces() {
    // Each corner of the cube touches three mutually orthogonal faces;
    // its normal is the normalized sum of their area-weighted normals,
    // the unit diagonal pointing outward.
    let mut m = unit_cube();
    let reference = m.clone();
    m.generate_normals();

    // Recompute the accumulation independently.
    let mut sums = vec![glam::Vec3::ZERO; 8];
    for f in 0..12 {
        let i0 = reference.indices[3 * f] as usize;
        let i1 = reference.indices[3 * f + 1] as usize;
        let i2 = reference.indices[3 * f + 2] as usize;
        let p0 = position_of(&reference.vertices[i0]);
        let p1 = position_of(&reference.vertices[i1]);
        let p2 = position_of(&reference.vertices[i2]);
        let n = (p1 - p0).cross(p2 - p0);
        sums[i0] += n;
        sums[i1] += n;
        sums[i2] += n;
    }
    let center = glam::Vec3::new(0.5, 0.5, 0.5);
    for (i, v) in m.vertices.iter().enumerate() {
        let n = normal_of(v);
        let expected = sums[i].normalize();
        assert!((n - expected).length() < 1e-6, "vertex {i}: {n} vs {expected}");
        assert!((n.length() - 1.0).abs() < 1e-6);
        // The diagonal points away from the cube's center.
        let outward = position_of(v) - center;
        assert!(n.dot(outward) > 0.0, "vertex {i} points inward");
    }
}

#[test]
fn zero_area_accumulation_yields_zero_normal_not_nan() {
    // A degenerate triangle accumulates a zero cross product; the
    // normalization pass leaves a zero vector rather than NaN.
    let mut m = Mesh::try_new(
        vec![vert(0.0, 0.0, 0.0), vert(1.0, 0.0, 0.0), vert(2.0, 0.0, 0.0)],
        vec![0, 1, 2],
    )
    .unwrap();
    m.generate_normals();
    for v in &m.vertices {
        assert_eq!(normal_of(v), glam::Vec3::ZERO);
    }
}

#[test]
fn create_buffers_lays_vertices_out_as_the_gpu_reads_them() {
    let m = Mesh::try_new(
        vec![vert(1.5, -2.0, 0.25), vert(0.0, 3.0, -1.0), vert(8.5, 0.5, 2.0)],
        vec![0, 1, 2],
    )
    .unwrap();
    let b = m.create_buffers();
    assert_eq!(b.nelems, 3);
    assert_eq!(b.vbuf.len(), 3 * 32);
    assert_eq!(b.ibuf.len(), 3 * 4);

    let mut expected: Vec<u8> = Vec::new();
    for v in &m.vertices {
        for w in [v.position.x, v.position.y, v.position.z, 0, v.normal.x, v.normal.y, v.normal.z,
            0]
        {
            expected.extend_from_slice(&w.to_le_bytes());
        }
    }
    assert_eq!(b.vbuf, expected);

    let mut eidx: Vec<u8> = Vec::new();
    for i in &m.indices {
        eidx.extend_from_slice(&i.to_le_bytes());
    }
    assert_eq!(b.ibuf, eidx);

    // Cross-check the vertex image against a raw float memcpy of the
    // same layout.
    let floats: Vec<f32> = m
        .vertices
        .iter()
        .flat_map(|v| {
            [
                f32::from_bits(v.position.x),
                f32::from_bits(v.position.y),
                f32::from_bits(v.position.z),
                0.0,
                f32::from_bits(v.normal.x),
                f32::from_bits(v.normal.y),
                f32::from_bits(v.normal.z),
                0.0,
            ]
        })
        .collect();
    let raw: &[u8] = bytemuck::cast_slice(&floats);
    assert_eq!(b.vbuf.as_slice(), raw);
}

#[test]
fn vertex_buffer_layout_describes_the_vertex_struct() {
    let l = Vertex::buffer_layout();
    assert_eq!(l.array_stride, 32);
    assert!(l.step_vertex);
    assert_eq!(l.attr_position.offset, 0);
    assert_eq!(l.attr_position.shader_location, 0);
    assert_eq!(l.attr_position.format, VertexFormat::Float32x3);
    assert_eq!(l.attr_normal.offset, 16);
    assert_eq!(l.attr_normal.shader_location, 1);
}

#[test]
fn index_formats_match_their_types() {
    assert_eq!(<u16 as rendercore::mesh::IndexFormat>::format(), IndexKind::Uint16);
    assert_eq!(<u32 as rendercore::mesh::IndexFormat>::format(), IndexKind::Uint32);
}
