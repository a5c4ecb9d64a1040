//! Frame planning, uniform upload bytes and scene conversion.

use rendercore::mat4::Mat4b;
use rendercore::mesh::{IndexKind, Mesh, Vertex};
use rendercore::renderer::{RenderCommand, Renderer};
use rendercore::scene::{RendererScene, Scene, SceneObject};
use rendercore::uniform::{TransformUniform, ViewProjUniform};
use rendercore::vec3::Vec3b;

fn mat(m: glam::Mat4) -> Mat4b {
    let a = m.to_cols_array();
    let mut e = [0u32; 16];
    for i in 0..16 {
        e[i] = a[i].to_bits();
    }
    Mat4b { e }
}

fn vert(x: f32, y: f32, z: f32) -> Vertex {
    Vertex::new(Vec3b { x: x.to_bits(), y: y.to_bits(), z: z.to_bits() })
}

fn triangle() -> Mesh {
    Mesh::try_new(
        vec![vert(0.0, 0.0, 0.0), vert(1.0, 0.0, 0.0), vert(0.0, 1.0, 0.0)],
        vec![0, 1, 2],
    )
    .unwrap()
}

#[test]
fn new_renderer_projects_with_the_surface_aspect() {
    let r = Renderer::new(1280, 720);
    let expected = glam::Mat4::perspective_lh(
        45.0f32.to_radians(),
        1280.0f32 / 720.0f32,
        0.1,
        100.0,
    )
    .to_cols_array();
    for i in 0..16 {
        assert_eq!(r.view_proj.proj.e[i], expected[i].to_bits(), "word {i}");
    }
    let identity = glam::Mat4::IDENTITY.to_cols_array();
    for i in 0..16 {
        assert_eq!(r.view_proj.view.e[i], identity[i].to_bits());
    }
    assert_eq!(r.demo_pass.width, 1280);
    assert_eq!(r.demo_pass.height, 720);
    assert!(r.demo_pass.depth_state.write_enabled);
    assert!(r.demo_pass.depth_state.compare_less);
}

#[test]
fn resize_rebuilds_the_depth_attachment_and_keeps_the_projection() {
    let mut r = Renderer::new(1280, 720);
    let proj = r.view_proj.proj;
    r.resize(640, 480);
    assert_eq!(r.demo_pass.width, 640);
    assert_eq!(r.demo_pass.height, 480);
    assert_eq!(r.view_proj.proj, proj);
}

#[test]
fn uniform_upload_is_the_scene_view_with_the_stored_projection() {
    let r = Renderer::new(800, 600);
    let view = mat(glam::Mat4::look_at_lh(
        glam::Vec3::new(0.0, 0.0, -3.5),
        glam::Vec3::ZERO,
        glam::Vec3::Y,
    ));
    let scene = RendererScene { objects: Vec::new(), view };
    let plan = r.render(&scene);

    let block = ViewProjUniform { view, proj: r.view_proj.proj };
    assert_eq!(plan.viewproj_upload, block.create_buffer());
    assert_eq!(plan.viewproj_upload.len(), 128);

    // Byte-identical to a raw memcpy of the two column-major matrices.
    let mut floats: Vec<f32> = Vec::new();
    for w in view.e.iter().chain(r.view_proj.proj.e.iter()) {
        floats.push(f32::from_bits(*w));
    }
    let raw: &[u8] = bytemuck::cast_slice(&floats);
    assert_eq!(plan.viewproj_upload.as_slice(), raw);
}

#[test]
fn viewproj_round_trips_byte_exactly() {
    let u = ViewProjUniform {
        view: mat(glam::Mat4::from_rotation_y(0.3)),
        proj: mat(glam::Mat4::perspective_lh(0.8, 1.5, 0.1, 100.0)),
    };
    let bytes = u.create_buffer();
    let back = ViewProjUniform::from_bytes(&bytes).expect("128 bytes");
    assert_eq!(back, u);

    let mut short = bytes.clone();
    short.pop();
    assert!(ViewProjUniform::from_bytes(&short).is_none());
}

#[test]
fn transform_bind_group_carries_the_model_matrix() {
    let model = mat(glam::Mat4::from_translation(glam::Vec3::new(1.0, 2.0, 3.0)));
    let u = TransformUniform { model };
    let g = u.create_bind_group();
    assert_eq!(g.binding, 0);
    assert_eq!(g.buffer, u.create_buffer());
    assert_eq!(g.buffer.len(), 64);
}

#[test]
fn frame_plan_draws_every_mesh_of_every_object_in_order() {
    let scene = Scene {
        objects: vec![
            SceneObject {
                meshes: vec![triangle()],
                materials: vec![None],
                transform: mat(glam::Mat4::IDENTITY),
            },
            SceneObject {
                meshes: vec![triangle(), triangle()],
                materials: vec![Some(Vec3b { x: 1.0f32.to_bits(), y: 0, z: 0 }), None],
                transform: mat(glam::Mat4::from_translation(glam::Vec3::X)),
            },
        ],
        view: mat(glam::Mat4::IDENTITY),
    };
    let r = Renderer::new(320, 240);
    let rs = r.create_scene(&scene);
    assert_eq!(rs.objects.len(), 2);
    assert_eq!(rs.objects[0].meshes.len(), 1);
    assert_eq!(rs.objects[1].meshes.len(), 2);
    assert_eq!(rs.objects[0].meshes[0].nelems, 3);
    assert_eq!(rs.objects[1].transform.binding, 0);
    assert_eq!(
        rs.objects[1].transform.buffer,
        TransformUniform { model: scene.objects[1].transform }.create_buffer()
    );

    let plan = r.render(&rs);
    assert_eq!(f64::from_bits(plan.color_clear.a), 1.0);
    assert_eq!(plan.color_clear.r, 0);
    assert_eq!(f32::from_bits(plan.depth_clear), 1.0);

    let draw = RenderCommand::DrawIndexed { first: 0, count: 3, base_vertex: 0, instances: 1 };
    let expected = vec![
        RenderCommand::SetPipeline,
        RenderCommand::SetViewProjGroup,
        RenderCommand::SetTransformGroup { object: 0 },
        RenderCommand::SetVertexBuffer { object: 0, mesh: 0 },
        RenderCommand::SetIndexBuffer { object: 0, mesh: 0, format: IndexKind::Uint32 },
        draw,
        RenderCommand::SetTransformGroup { object: 1 },
        RenderCommand::SetVertexBuffer { object: 1, mesh: 0 },
        RenderCommand::SetIndexBuffer { object: 1, mesh: 0, format: IndexKind::Uint32 },
        draw,
        RenderCommand::SetVertexBuffer { object: 1, mesh: 1 },
        RenderCommand::SetIndexBuffer { object: 1, mesh: 1, format: IndexKind::Uint32 },
        draw,
    ];
    assert_eq!(plan.commands, expected);
}

#[test]
fn empty_scene_plans_only_the_pass_setup() {
    let r = Renderer::new(100, 100);
    let plan = r.render(&RendererScene { objects: Vec::new(), view: mat(glam::Mat4::IDENTITY) });
    assert_eq!(
        plan.commands,
        vec![RenderCommand::SetPipeline, RenderCommand::SetViewProjGroup]
    );
}
