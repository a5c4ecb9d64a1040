//! The renderer: pipeline state and per-frame draw planning.
//!
//! The renderer owns the view-projection block and the one forward pass.
//! `render` produces a `FramePlan`: the exact bytes to overwrite the
//! view-projection buffer with, the pass's clear values, and the command
//! sequence to encode — pipeline and frame bindings once, then for every
//! object its transform group, and for every mesh its buffers and one
//! indexed draw over the full index range, instance count 1.  The caller
//! submits the encoded pass and presents.

use crate::mesh::{Index, IndexFormat, IndexKind};
use crate::numeric::{f32_div, u32_to_f32};
use crate::scene::{RendererScene, RendererSceneObject};
use crate::uniform::{viewproj_bytes, ViewProjUniform, UniformBindingDesc};
use crate::mat4::{identity_mat, mat_perspective_lh, Mat4b};
use crate::mesh::{vertex_buffer_layout, Vertex, VertexBufferLayoutDesc};
use vstd::prelude::*;

verus! {

/// Bit pattern of 45 degrees in radians (`45.0f32.to_radians()`), the
/// vertical field of view.
pub const B_FOV_Y: u32 = 0x3F49_0FDB;

/// Bit pattern of `0.1f32`, the near clip plane.
pub const B_Z_NEAR: u32 = 0x3DCC_CCCD;

/// Bit pattern of `100.0f32`, the far clip plane.
pub const B_Z_FAR: u32 = 0x42C8_0000;

/// Bit pattern of `1.0f32`, the depth clear value (far plane).
pub const B_DEPTH_CLEAR: u32 = 0x3F80_0000;

/// Bit pattern of `1.0f64`, the alpha of the black clear color.
pub const B64_ONE: u64 = 0x3FF0_0000_0000_0000;

/// A double-precision RGBA clear color, each channel a bit pattern.
#[derive(Clone, Copy, PartialEq, Eq, Structural, Debug)]
pub struct ClearColor {
    pub r: u64,
    pub g: u64,
    pub b: u64,
    pub a: u64,
}

/// Opaque black.
pub open spec fn clear_black() -> ClearColor {
    ClearColor { r: 0u64, g: 0u64, b: 0u64, a: B64_ONE }
}

/// The depth attachment's fixed-function state: always `Depth32Float`,
/// compared with `Less`, writes enabled.
#[derive(Clone, Copy, PartialEq, Eq, Structural, Debug)]
pub struct DepthStateDesc {
    pub write_enabled: bool,
    pub compare_less: bool,
}

/// The one forward pass: its surface-sized depth attachment and its
/// pipeline's fixed state.
#[derive(Clone, Copy, PartialEq, Eq, Structural, Debug)]
pub struct DemoPass {
    /// Width of the depth texture, the surface width.
    pub width: u32,
    /// Height of the depth texture, the surface height.
    pub height: u32,
    /// Depth test state baked into the pipeline.
    pub depth_state: DepthStateDesc,
    /// Vertex layout baked into the pipeline.
    pub vertex_layout: VertexBufferLayoutDesc,
}

/// The renderer: the view-projection block and the forward pass.
#[derive(Clone, Copy, PartialEq, Debug)]
pub struct Renderer {
    pub view_proj: ViewProjUniform,
    pub view_proj_binding: UniformBindingDesc,
    pub demo_pass: DemoPass,
}

/// Whether a renderer holds what `new` builds for a surface of the given
/// size, its projection aside: an identity view, the standard uniform
/// binding, and the pass state for that surface.  The projection matrix
/// comes from the platform math library and is carried as a value.
pub open spec fn renderer_matches(r: Renderer, width: u32, height: u32) -> bool {
    &&& r.view_proj.view == identity_mat()
    &&& r.view_proj_binding == (UniformBindingDesc {
        binding: 0u32,
        vertex_visible: true,
        dynamic_offset: false,
    })
    &&& r.demo_pass == demo_pass_of(width, height)
}

/// One encoding step of the pass.
#[derive(Clone, Copy, PartialEq, Eq, Structural, Debug)]
pub enum RenderCommand {
    /// Bind the forward pipeline.
    SetPipeline,
    /// Bind the frame's view-projection group at slot 0.
    SetViewProjGroup,
    /// Bind object `object`'s transform group at slot 1.
    SetTransformGroup { object: usize },
    /// Bind the vertex buffer of mesh `mesh` of object `object` at slot 0.
    SetVertexBuffer { object: usize, mesh: usize },
    /// Bind the index buffer of mesh `mesh` of object `object`.
    SetIndexBuffer { object: usize, mesh: usize, format: IndexKind },
    /// Draw indices `[first, first + count)`, base vertex 0, `instances`
    /// instances starting at 0.
    DrawIndexed { first: u32, count: u32, base_vertex: i32, instances: u32 },
}

/// Everything one frame encodes, in order.
#[derive(Clone, PartialEq, Debug)]
pub struct FramePlan {
    /// Bytes to overwrite the view-projection uniform buffer with before
    /// the pass (a direct overwrite, no diffing).
    pub viewproj_upload: Vec<u8>,
    /// The color attachment's clear value; the attachment is stored.
    pub color_clear: ClearColor,
    /// The depth attachment's clear value (the far plane).
    pub depth_clear: u32,
    /// The pass's command sequence.
    pub commands: Vec<RenderCommand>,
}

/// The three commands that draw mesh `j` of object `oi`.
pub open spec fn mesh_commands(nelems: u32, oi: int, j: int) -> Seq<RenderCommand> {
    seq![
        RenderCommand::SetVertexBuffer { object: oi as usize, mesh: j as usize },
        RenderCommand::SetIndexBuffer {
            object: oi as usize,
            mesh: j as usize,
            format: IndexKind::Uint32,
        },
        RenderCommand::DrawIndexed { first: 0u32, count: nelems, base_vertex: 0i32, instances: 1u32 },
    ]
}

/// The commands of the first `k` meshes of object `oi`.
pub open spec fn object_mesh_commands(o: RendererSceneObject, oi: int, k: int) -> Seq<RenderCommand>
    decreases k,
{
    if k <= 0 {
        Seq::empty()
    } else {
        object_mesh_commands(o, oi, k - 1) + mesh_commands(o.meshes@[k - 1].nelems, oi, k - 1)
    }
}

/// The commands of one object: its transform group, then its meshes.
pub open spec fn object_commands(o: RendererSceneObject, oi: int) -> Seq<RenderCommand> {
    seq![RenderCommand::SetTransformGroup { object: oi as usize }] + object_mesh_commands(
        o,
        oi,
        o.meshes@.len() as int,
    )
}

/// The commands of the first `k` objects.
pub open spec fn scene_commands(objs: Seq<RendererSceneObject>, k: int) -> Seq<RenderCommand>
    decreases k,
{
    if k <= 0 {
        Seq::empty()
    } else {
        scene_commands(objs, k - 1) + object_commands(objs[k - 1], k - 1)
    }
}

/// A whole pass: pipeline and frame group once, then every object.
pub open spec fn pass_commands(objs: Seq<RendererSceneObject>) -> Seq<RenderCommand> {
    seq![RenderCommand::SetPipeline, RenderCommand::SetViewProjGroup] + scene_commands(
        objs,
        objs.len() as int,
    )
}

impl Renderer {
    /// Build the renderer for a surface of the given size: an identity
    /// view, a 45-degree perspective projection with the surface's aspect
    /// ratio, and the forward pass's fixed state.  The projection matrix
    /// is computed by the platform math library and carried as a value;
    /// `render` uploads whatever it holds.
    pub fn new(width: u32, height: u32) -> (r: Renderer)
        ensures
            renderer_matches(r, width, height),
    {
        let aspect = f32_div(u32_to_f32(width), u32_to_f32(height));
        let proj = mat_perspective_lh(B_FOV_Y, aspect, B_Z_NEAR, B_Z_FAR);
        let view_proj = ViewProjUniform { view: Mat4b::identity(), proj };
        let view_proj_binding = ViewProjUniform::layout();
        let demo_pass = DemoPass::new(width, height);
        Renderer { view_proj, view_proj_binding, demo_pass }
    }

    /// Rebuild the surface-size-dependent resources (the depth
    /// attachment); the uniform block and its binding are size-independent
    /// and preserved.
    pub fn resize(&mut self, width: u32, height: u32)
        ensures
            final(self).view_proj == old(self).view_proj,
            final(self).view_proj_binding == old(self).view_proj_binding,
            final(self).demo_pass == demo_pass_of(width, height),
    {
        self.demo_pass = DemoPass::new(width, height);
    }

    /// Plan one frame over the committed scene: the view-projection
    /// overwrite (the scene's view with the stored projection) and the
    /// forward pass.
    pub fn render(&self, scene: &RendererScene) -> (plan: FramePlan)
        ensures
            plan.viewproj_upload@ == viewproj_bytes(
                ViewProjUniform { view: scene.view, proj: self.view_proj.proj },
            ),
            plan.color_clear == clear_black(),
            plan.depth_clear == B_DEPTH_CLEAR,
            plan.commands@ == pass_commands(scene.objects@),
    {
        let upload = ViewProjUniform { view: scene.view, proj: self.view_proj.proj };
        let viewproj_upload = upload.create_buffer();
        let commands = self.demo_pass.execute(scene);
        FramePlan {
            viewproj_upload,
            color_clear: ClearColor { r: 0, g: 0, b: 0, a: B64_ONE },
            depth_clear: B_DEPTH_CLEAR,
            commands,
        }
    }

    /// Convert a scene into the form `render` consumes.
    pub fn create_scene(&self, scene: &crate::scene::Scene) -> (r: RendererScene)
        requires
            forall|i: int, j: int|
                0 <= i < scene.objects@.len() && 0 <= j < scene.objects@[i].meshes@.len()
                    ==> (#[trigger] scene.objects@[i].meshes@[j]).indices@.len() <= u32::MAX,
        ensures
            r.view == scene.view,
            r.objects@.len() == scene.objects@.len(),
            forall|i: int|
                0 <= i < scene.objects@.len() ==> crate::scene::object_matches(
                    #[trigger] r.objects@[i],
                    scene.objects@[i],
                ),
    {
        RendererScene::create(scene)
    }
}

/// The pass state `new` builds for a surface of the given size.
pub open spec fn demo_pass_of(width: u32, height: u32) -> DemoPass {
    DemoPass {
        width,
        height,
        depth_state: DepthStateDesc { write_enabled: true, compare_less: true },
        vertex_layout: vertex_buffer_layout(),
    }
}

impl DemoPass {
    /// The forward pass for a surface of the given size: a depth
    /// attachment of that size, depth-tested with `Less` and written,
    /// over the mesh vertex layout.
    pub fn new(width: u32, height: u32) -> (r: DemoPass)
        ensures
            r == demo_pass_of(width, height),
    {
        DemoPass {
            width,
            height,
            depth_state: DepthStateDesc { write_enabled: true, compare_less: true },
            vertex_layout: Vertex::buffer_layout(),
        }
    }

    /// Encode the pass over a scene: the pipeline and the frame's
    /// view-projection group once, then for every object its transform
    /// group and one indexed draw per mesh over its full index range.
    pub fn execute(&self, scene: &RendererScene) -> (commands: Vec<RenderCommand>)
        ensures
            commands@ == pass_commands(scene.objects@),
    {
        let mut commands: Vec<RenderCommand> = Vec::new();
        commands.push(RenderCommand::SetPipeline);
        commands.push(RenderCommand::SetViewProjGroup);

        let mut oi: usize = 0;
        while oi < scene.objects.len()
            invariant
                oi <= scene.objects@.len(),
                commands@ == seq![RenderCommand::SetPipeline, RenderCommand::SetViewProjGroup]
                    + scene_commands(scene.objects@, oi as int),
            decreases scene.objects@.len() - oi,
        {
            let o = &scene.objects[oi];
            commands.push(RenderCommand::SetTransformGroup { object: oi });
            let mut j: usize = 0;
            while j < o.meshes.len()
                invariant
                    j <= o.meshes@.len(),
                    oi < scene.objects@.len(),
                    o == &scene.objects@[oi as int],
                    commands@ == seq![
                        RenderCommand::SetPipeline,
                        RenderCommand::SetViewProjGroup,
                    ] + scene_commands(scene.objects@, oi as int) + seq![
                        RenderCommand::SetTransformGroup { object: oi },
                    ] + object_mesh_commands(scene.objects@[oi as int], oi as int, j as int),
                decreases o.meshes@.len() - j,
            {
                commands.push(RenderCommand::SetVertexBuffer { object: oi, mesh: j });
                commands.push(
                    RenderCommand::SetIndexBuffer { object: oi, mesh: j, format: Index::format() },
                );
                commands.push(
                    RenderCommand::DrawIndexed {
                        first: 0,
                        count: o.meshes[j].nelems,
                        base_vertex: 0,
                        instances: 1,
                    },
                );
                proof {
                    assert(commands@ =~= seq![
                        RenderCommand::SetPipeline,
                        RenderCommand::SetViewProjGroup,
                    ] + scene_commands(scene.objects@, oi as int) + seq![
                        RenderCommand::SetTransformGroup { object: oi },
                    ] + object_mesh_commands(scene.objects@[oi as int], oi as int, j as int + 1));
                }
                j = j + 1;
            }
            proof {
                assert(commands@ =~= seq![
                    RenderCommand::SetPipeline,
                    RenderCommand::SetViewProjGroup,
                ] + scene_commands(scene.objects@, oi as int + 1));
            }
            oi = oi + 1;
        }
        proof {
            assert(commands@ =~= pass_commands(scene.objects@));
        }
        commands
    }
}

} // verus!
