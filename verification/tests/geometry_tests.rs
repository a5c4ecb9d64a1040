//! Bounding boxes and centering.

use rendercore::geometry::{Bounds, Centered};
use rendercore::mesh::{Mesh, Vertex};
use rendercore::vec3::{Vec3b, Vec2b};

fn vert(x: f32, y: f32, z: f32) -> Vertex {
    Vertex::new(Vec3b { x: x.to_bits(), y: y.to_bits(), z: z.to_bits() })
}

fn to_vec3(v: Vec3b) -> glam::Vec3 {
    glam::Vec3::new(f32::from_bits(v.x), f32::from_bits(v.y), f32::from_bits(v.z))
}

fn mesh(points: &[(f32, f32, f32)]) -> Mesh {
    let vertices: Vec<Vertex> = points.iter().map(|p| vert(p.0, p.1, p.2)).collect();
    let n = vertices.len() as u32;
    let indices: Vec<u32> = (0..n - n % 3).collect();
    Mesh::try_new(vertices, indices).unwrap()
}

#[test]
fn bbox_folds_minima_and_maxima() {
    let m = mesh(&[(1.0, -2.0, 3.0), (-4.0, 5.0, 0.5), (2.0, 0.0, -6.0)]);
    let (lo, hi) = m.bbox();
    assert_eq!(to_vec3(lo), glam::Vec3::new(-4.0, -2.0, -6.0));
    assert_eq!(to_vec3(hi), glam::Vec3::new(2.0, 5.0, 3.0));
}

#[test]
fn empty_mesh_bbox_is_the_degenerate_infinity_pair() {
    let m = Mesh::try_new(Vec::new(), Vec::new()).unwrap();
    let (lo, hi) = m.bbox();
    assert_eq!(to_vec3(lo), glam::Vec3::splat(f32::INFINITY));
    assert_eq!(to_vec3(hi), glam::Vec3::splat(f32::NEG_INFINITY));
}

#[test]
fn centered_bbox_is_symmetric_around_origin() {
    // Centering a mesh leaves a bounding box with min == -max.
    let m = mesh(&[(1.0, 2.0, 3.0), (5.0, 8.0, 4.0), (3.0, 2.0, 11.0)]);
    let c = m.centered();
    let (lo, hi) = c.bbox();
    assert_eq!(to_vec3(lo), -to_vec3(hi));
    // And with values that are not exactly representable midpoints, to a
    // tolerance.
    let m2 = mesh(&[(0.1, 0.2, 0.3), (0.7, 1.1, 2.9), (0.4, 0.5, 0.6)]);
    let c2 = m2.centered();
    let (lo2, hi2) = c2.bbox();
    assert!((to_vec3(lo2) + to_vec3(hi2)).length() < 1e-6);
}

#[test]
fn centered_translates_every_position_and_keeps_the_rest() {
    let m = mesh(&[(0.0, 0.0, 0.0), (2.0, 4.0, 6.0), (1.0, 1.0, 1.0)]);
    let c = m.centered();
    assert_eq!(c.indices, m.indices);
    let diff = glam::Vec3::new(1.0, 2.0, 3.0);
    for (a, b) in m.vertices.iter().zip(c.vertices.iter()) {
        assert_eq!(
            to_vec3(b.position),
            to_vec3(a.position) - diff,
        );
        assert_eq!(a.normal, b.normal);
    }
}

#[test]
fn mesh_list_shares_one_box_when_centered() {
    // Centering a list of meshes translates all of them by the combined
    // box's center, so their relative placement is preserved.
    let meshes = vec![
        mesh(&[(0.0, 0.0, 0.0), (1.0, 1.0, 1.0), (0.5, 0.5, 0.5)]),
        mesh(&[(3.0, 3.0, 3.0), (4.0, 5.0, 7.0), (3.5, 3.5, 3.5)]),
    ];
    let (lo, hi) = meshes.bbox();
    assert_eq!(to_vec3(lo), glam::Vec3::new(0.0, 0.0, 0.0));
    assert_eq!(to_vec3(hi), glam::Vec3::new(4.0, 5.0, 7.0));

    let centered = meshes.centered();
    let (clo, chi) = centered.bbox();
    assert_eq!(to_vec3(clo), -to_vec3(chi));
    let shift = (to_vec3(lo) + to_vec3(hi)) / 2.0;
    for (orig, cent) in meshes.iter().zip(centered.iter()) {
        for (a, b) in orig.vertices.iter().zip(cent.vertices.iter()) {
            assert_eq!(to_vec3(b.position), to_vec3(a.position) - shift);
        }
    }
}

#[test]
fn vec2b_holds_bit_patterns() {
    let v = Vec2b { x: 1.5f32.to_bits(), y: (-0.25f32).to_bits() };
    assert_eq!(f32::from_bits(v.x), 1.5);
    assert_eq!(f32::from_bits(v.y), -0.25);
}
