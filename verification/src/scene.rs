//! Scenes and their renderer-side form.
//!
//! A `Scene` pairs meshes with model transforms and a shared view matrix.
//! `RendererScene::create` converts it wholesale into what the render pass
//! consumes: upload-ready mesh buffers and a transform bind group per
//! object.  The renderer holds at most one current scene, replaced
//! atomically.

use crate::mat4::Mat4b;
use crate::mesh::{buffers_match, Mesh, MeshBuffers};
use crate::uniform::{transform_bytes, TransformUniform, UniformBindGroupDesc};
use crate::vec3::Vec3b;
use vstd::prelude::*;

verus! {

/// A scene: objects and the shared view matrix.
#[derive(Clone, PartialEq, Debug)]
pub struct Scene {
    pub objects: Vec<SceneObject>,
    pub view: Mat4b,
}

/// One object: its meshes, an optional albedo color per mesh (an
/// unresolved material association is `None`), and its model transform.
/// The forward pass does not yet consume the colors; they ride with the
/// scene for the pipelines that will.
#[derive(Clone, PartialEq, Debug)]
pub struct SceneObject {
    pub meshes: Vec<Mesh>,
    pub materials: Vec<Option<Vec3b>>,
    pub transform: Mat4b,
}

/// The renderer-side scene: converted objects and the view matrix.
#[derive(Clone, PartialEq, Debug)]
pub struct RendererScene {
    pub objects: Vec<RendererSceneObject>,
    pub view: Mat4b,
}

/// The renderer-side object: upload-ready mesh buffers and the transform
/// bind group.
#[derive(Clone, PartialEq, Debug)]
pub struct RendererSceneObject {
    pub meshes: Vec<MeshBuffers>,
    pub transform: UniformBindGroupDesc,
}

/// Whether a renderer-side object is the converted form of a scene
/// object.
pub open spec fn object_matches(ro: RendererSceneObject, o: SceneObject) -> bool {
    &&& ro.meshes@.len() == o.meshes@.len()
    &&& forall|j: int|
        0 <= j < o.meshes@.len() ==> buffers_match(#[trigger] ro.meshes@[j], o.meshes@[j])
    &&& ro.transform.binding == 0
    &&& ro.transform.buffer@ == transform_bytes(TransformUniform { model: o.transform })
}

impl RendererSceneObject {
    /// Convert one object: create buffers for every mesh and a bind group
    /// for the transform.
    pub fn create(object: &SceneObject) -> (r: RendererSceneObject)
        requires
            forall|j: int|
                0 <= j < object.meshes@.len() ==> (#[trigger] object.meshes@[j]).indices@.len()
                    <= u32::MAX,
        ensures
            object_matches(r, *object),
    {
        let mut meshes: Vec<MeshBuffers> = Vec::new();
        let mut j: usize = 0;
        while j < object.meshes.len()
            invariant
                j <= object.meshes@.len(),
                meshes@.len() == j,
                forall|i: int|
                    0 <= i < object.meshes@.len() ==> (#[trigger] object.meshes@[i]).indices@.len()
                        <= u32::MAX,
                forall|i: int|
                    0 <= i < j ==> buffers_match(#[trigger] meshes@[i], object.meshes@[i]),
            decreases object.meshes@.len() - j,
        {
            meshes.push(object.meshes[j].create_buffers());
            j = j + 1;
        }
        let transform = TransformUniform { model: object.transform }.create_bind_group();
        RendererSceneObject { meshes, transform }
    }
}

impl RendererScene {
    /// An empty scene: no objects, identity view.
    pub fn empty() -> (r: RendererScene)
        ensures
            r.objects@.len() == 0,
            r.view == crate::mat4::identity_mat(),
    {
        RendererScene { objects: Vec::new(), view: Mat4b::identity() }
    }

    /// Convert a whole scene for the renderer.
    pub fn create(scene: &Scene) -> (r: RendererScene)
        requires
            forall|i: int, j: int|
                0 <= i < scene.objects@.len() && 0 <= j < scene.objects@[i].meshes@.len()
                    ==> (#[trigger] scene.objects@[i].meshes@[j]).indices@.len() <= u32::MAX,
        ensures
            r.view == scene.view,
            r.objects@.len() == scene.objects@.len(),
            forall|i: int|
                0 <= i < scene.objects@.len() ==> object_matches(
                    #[trigger] r.objects@[i],
                    scene.objects@[i],
                ),
    {
        let mut objects: Vec<RendererSceneObject> = Vec::new();
        let mut i: usize = 0;
        while i < scene.objects.len()
            invariant
                i <= scene.objects@.len(),
                objects@.len() == i,
                forall|a: int, j: int|
                    0 <= a < scene.objects@.len() && 0 <= j < scene.objects@[a].meshes@.len()
                        ==> (#[trigger] scene.objects@[a].meshes@[j]).indices@.len() <= u32::MAX,
                forall|a: int|
                    0 <= a < i ==> object_matches(#[trigger] objects@[a], scene.objects@[a]),
            decreases scene.objects@.len() - i,
        {
            objects.push(RendererSceneObject::create(&scene.objects[i]));
            i = i + 1;
        }
        RendererScene { objects, view: scene.view }
    }
}

} // verus!
