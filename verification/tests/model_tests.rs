//! OBJ loading, conversion and the demo mesh generator.

use genmesh::generators::{IcoSphere, SharedVertex};
use rendercore::demo::demo_mesh;
use rendercore::model::{extension_from_filename, Model, ParsedMaterial, ParsedMesh};

fn obj_file() -> (String, Vec<u8>) {
    let text = "mtllib scene.mtl\nv 0 0 1\nv 1 0 0\nv 0 1 0\nusemtl red\nf 1 2 3\n";
    ("scene.obj".to_string(), text.as_bytes().to_vec())
}

fn mtl_file() -> (String, Vec<u8>) {
    let text = "newmtl red\nKd 1 0 0\n";
    ("scene.mtl".to_string(), text.as_bytes().to_vec())
}

#[test]
fn from_buffers_loads_converts_and_associates() {
    let files = vec![mtl_file(), obj_file()];
    let model = Model::from_buffers("scene", &files).expect("loads");
    assert_eq!(model.name, "scene");
    assert_eq!(model.meshes.len(), 1);
    let mesh = &model.meshes[0];

    // Winding reversed: the file's triangle 0,1,2 is drawn 2,1,0.
    assert_eq!(mesh.indices, vec![2, 1, 0]);

    // Every z is sign-flipped (right-handed to left-handed).
    let p0 = &mesh.vertices[0].position;
    assert_eq!(f32::from_bits(p0.x), 0.0);
    assert_eq!(f32::from_bits(p0.y), 0.0);
    assert_eq!(f32::from_bits(p0.z), -1.0);

    // The material and its diffuse color came through.
    assert_eq!(model.materials.len(), 1);
    assert_eq!(model.materials[0].name, "red");
    let albedo = &model.materials[0].albedo;
    assert_eq!(f32::from_bits(albedo.x), 1.0);
    assert_eq!(f32::from_bits(albedo.y), 0.0);
    assert_eq!(f32::from_bits(albedo.z), 0.0);

    // The mesh is associated with it by name.
    assert_eq!(model.mesh_materials, vec![Some("red".to_string())]);

    // Index bounds hold for every loaded mesh.
    for m in &model.meshes {
        assert_eq!(m.indices.len() % 3, 0);
        for &i in &m.indices {
            assert!((i as usize) < m.vertices.len());
        }
    }
}

#[test]
fn from_buffers_picks_the_obj_file_by_extension() {
    // The OBJ is found even when listed after other files and under a
    // directory-like name.
    let (name, bytes) = obj_file();
    let files = vec![
        mtl_file(),
        ("notes.txt".to_string(), b"irrelevant".to_vec()),
        (format!("models/{name}"), bytes),
    ];
    assert!(Model::from_buffers("scene", &files).is_some());
}

#[test]
fn from_buffers_without_obj_file_is_none() {
    let files = vec![mtl_file()];
    assert!(Model::from_buffers("scene", &files).is_none());
}

#[test]
fn from_buffers_rejects_garbage() {
    let files = vec![("bad.obj".to_string(), b"v 1 2\nf nonsense\n".to_vec())];
    assert!(Model::from_buffers("bad", &files).is_none());
}

#[test]
fn from_parsed_rejects_out_of_range_indices() {
    let meshes = vec![ParsedMesh {
        positions: vec![0, 0, 0, 0, 0, 0, 0, 0, 0],
        indices: vec![0, 1, 3],
        material_id: None,
    }];
    let materials: Vec<ParsedMaterial> = Vec::new();
    assert!(Model::from_parsed("bad", &meshes, &materials).is_none());
}

#[test]
fn from_parsed_maps_missing_diffuse_to_black() {
    let meshes = vec![ParsedMesh {
        positions: vec![0, 0, 0, 0, 0, 0, 0, 0, 0],
        indices: vec![0, 1, 2],
        material_id: Some(0),
    }];
    let materials = vec![ParsedMaterial { name: "flat".to_string(), diffuse: None }];
    let model = Model::from_parsed("m", &meshes, &materials).unwrap();
    assert_eq!(model.materials[0].albedo.x, 0);
    assert_eq!(model.materials[0].albedo.y, 0);
    assert_eq!(model.materials[0].albedo.z, 0);
    assert_eq!(model.mesh_materials[0], Some("flat".to_string()));
}

#[test]
fn from_parsed_out_of_range_material_reference_is_unresolved() {
    let meshes = vec![ParsedMesh {
        positions: vec![0, 0, 0, 0, 0, 0, 0, 0, 0],
        indices: vec![0, 1, 2],
        material_id: Some(7),
    }];
    let materials: Vec<ParsedMaterial> = Vec::new();
    let model = Model::from_parsed("m", &meshes, &materials).unwrap();
    assert_eq!(model.mesh_materials[0], None);
}

#[test]
fn extension_parsing_follows_the_last_dot_of_the_last_segment() {
    assert_eq!(extension_from_filename("cornell_box.obj"), "obj");
    assert_eq!(extension_from_filename("models/scene.tar.mtl"), "mtl");
    assert_eq!(extension_from_filename("noext"), "");
    assert_eq!(extension_from_filename(".hidden"), "");
    assert_eq!(extension_from_filename("dir.v2/plain"), "");
}

#[test]
fn demo_mesh_is_a_well_formed_icosphere() {
    let m = demo_mesh().expect("generator output is valid");
    // One subdivision: 42 shared vertices, 80 faces.
    assert_eq!(m.vertices.len(), 42);
    assert_eq!(m.indices.len(), 240);
    for &i in &m.indices {
        assert!((i as usize) < m.vertices.len());
    }
    // The generator's positions came through: every vertex of the unit
    // icosphere has length 1.
    for v in &m.vertices {
        let p = glam::Vec3::new(
            f32::from_bits(v.position.x),
            f32::from_bits(v.position.y),
            f32::from_bits(v.position.z),
        );
        assert!((p.length() - 1.0).abs() < 1e-5);
    }

    // And they match the generator itself, bit for bit.
    let direct: Vec<u32> = IcoSphere::subdivide(1)
        .shared_vertex_iter()
        .flat_map(|v| [v.pos.x.to_bits(), v.pos.y.to_bits(), v.pos.z.to_bits()])
        .collect();
    for (i, v) in m.vertices.iter().enumerate() {
        assert_eq!(v.position.x, direct[3 * i]);
        assert_eq!(v.position.y, direct[3 * i + 1]);
        assert_eq!(v.position.z, direct[3 * i + 2]);
    }
}
