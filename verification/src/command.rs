//! The commands of a frame and the shape that the render pass gives them.
//!
//! The pass has two subpasses. Meshes are drawn in the first. The second
//! opens with the ambient term, goes on with lights and the skybox, and may
//! end with the proxy mesh of a light.

use vstd::prelude::*;
use crate::mesh::{GpuImage, Mesh};
use crate::shading::{AmbientData, CameraData, DirectionalLightData, PointLightData, PushConstants};
use crate::stage::RenderStage;

verus! {

/// One command of a frame.
#[derive(Clone, Copy, Debug, PartialEq, Eq)]
#[allow(inconsistent_fields)]
pub enum Command {
    /// Draw the mesh at position `mesh` of the model in hand, with its own
    /// buffers and descriptor set.
    DrawMesh { mesh: usize, index_count: u32, push_constants: PushConstants },
    /// Leave the geometry subpass for the lighting subpass.
    NextSubpass,
    /// Light the whole screen evenly.
    DrawAmbient { ambient: AmbientData },
    /// Add the contribution of a directional light.
    DrawDirectional { light: DirectionalLightData, camera: CameraData },
    /// Add the contribution of a point light.
    DrawPointLight { light: PointLightData, camera: CameraData },
    /// Fill what no mesh covers with the skybox whose cube image this is.
    DrawSkybox { cubemap: GpuImage },
    /// Draw the proxy mesh that shows where a light stands.
    DrawLightObject { light: DirectionalLightData },
}

/// How far a command list has gone through the render pass.
#[derive(Clone, Copy, Debug, PartialEq, Eq, Structural)]
pub enum PassPoint {
    /// In the geometry subpass.
    Geometry,
    /// In the lighting subpass, with nothing drawn there yet.
    Advanced,
    /// After the ambient draw.
    Ambient,
    /// After one light or more.
    Lights,
    /// After the proxy mesh.
    LightObject,
}

/// The point that `command` leads to from `point`, if it may follow there.
pub open spec fn advance(point: PassPoint, command: Command) -> Option<PassPoint> {
    match command {
        Command::DrawMesh { .. } => if point == PassPoint::Geometry {
            Some(PassPoint::Geometry)
        } else {
            None
        },
        Command::NextSubpass => if point == PassPoint::Geometry {
            Some(PassPoint::Advanced)
        } else {
            None
        },
        Command::DrawAmbient { .. } => if point == PassPoint::Advanced {
            Some(PassPoint::Ambient)
        } else {
            None
        },
        Command::DrawDirectional { .. } | Command::DrawPointLight { .. } => if point
            == PassPoint::Ambient || point == PassPoint::Lights {
            Some(PassPoint::Lights)
        } else {
            None
        },
        Command::DrawSkybox { .. } => if point == PassPoint::Lights {
            Some(PassPoint::Lights)
        } else {
            None
        },
        Command::DrawLightObject { .. } => if point == PassPoint::Lights {
            Some(PassPoint::LightObject)
        } else {
            None
        },
    }
}

/// The point that a command list reaches from the start of the pass, or
/// `None` where a command stands out of place.
pub open spec fn replay(commands: Seq<Command>) -> Option<PassPoint>
    decreases commands.len(),
{
    if commands.len() == 0 {
        Some(PassPoint::Geometry)
    } else {
        match replay(commands.drop_last()) {
            Some(point) => advance(point, commands.last()),
            None => None,
        }
    }
}

/// The point of the pass at which a frame stands in `stage`.
pub open spec fn point_of(stage: RenderStage) -> PassPoint {
    match stage {
        RenderStage::Ambient => PassPoint::Ambient,
        RenderStage::Directional => PassPoint::Lights,
        RenderStage::LightObject => PassPoint::LightObject,
        _ => PassPoint::Geometry,
    }
}

/// A command list that can be closed and submitted: it has left the geometry
/// subpass, and no command stands out of place.
pub open spec fn complete_pass(commands: Seq<Command>) -> bool {
    replay(commands) is Some && replay(commands) != Some(PassPoint::Geometry)
}

/// The draws of the geometry pass for a model: one for each mesh that is on
/// the GPU, in the order of the meshes. A mesh that lacks a buffer or its
/// descriptor set is passed over.
pub open spec fn geometry_draws(meshes: Seq<Mesh>, push_constants: PushConstants) -> Seq<Command>
    decreases meshes.len(),
{
    if meshes.len() == 0 {
        Seq::empty()
    } else {
        let before = geometry_draws(meshes.drop_last(), push_constants);
        if meshes.last().is_uploaded() {
            before.push(
                Command::DrawMesh {
                    mesh: (meshes.len() - 1) as usize,
                    index_count: meshes.last().index_buffer->0.len,
                    push_constants,
                },
            )
        } else {
            before
        }
    }
}

/// Replaying one command more goes one step from where the list stood.
pub proof fn lemma_replay_push(commands: Seq<Command>, command: Command)
    ensures
        replay(commands.push(command)) == match replay(commands) {
            Some(point) => advance(point, command),
            None => None,
        },
{
    assert(commands.push(command).drop_last() =~= commands);
}

/// Mesh draws keep a command list in the geometry subpass.
pub proof fn lemma_replay_geometry(
    commands: Seq<Command>,
    meshes: Seq<Mesh>,
    push_constants: PushConstants,
)
    requires
        replay(commands) == Some(PassPoint::Geometry),
    ensures
        replay(commands + geometry_draws(meshes, push_constants)) == Some(PassPoint::Geometry),
    decreases meshes.len(),
{
    if meshes.len() > 0 {
        let before = geometry_draws(meshes.drop_last(), push_constants);
        lemma_replay_geometry(commands, meshes.drop_last(), push_constants);
        if meshes.last().is_uploaded() {
            let draw = Command::DrawMesh {
                mesh: (meshes.len() - 1) as usize,
                index_count: meshes.last().index_buffer->0.len,
                push_constants,
            };
            lemma_replay_push(commands + before, draw);
        }
    }
}

/// The subpass changes at position `k` and nowhere else: mesh draws come
/// before the change and only there, and every other draw comes after it.
pub open spec fn changes_subpass_at(commands: Seq<Command>, k: int) -> bool {
    &&& 0 <= k < commands.len()
    &&& commands[k] is NextSubpass
    &&& forall|i: int| 0 <= i < k ==> #[trigger] commands[i] is DrawMesh
    &&& forall|i: int|
        k < i < commands.len() ==> !(#[trigger] commands[i] is DrawMesh) && !(commands[i]
            is NextSubpass)
}

/// Nothing but mesh draws.
pub open spec fn only_mesh_draws(commands: Seq<Command>) -> bool {
    forall|i: int| 0 <= i < commands.len() ==> #[trigger] commands[i] is DrawMesh
}

/// A command list with no command out of place is all mesh draws while it
/// is in the geometry subpass, and after that changes subpass exactly once.
pub proof fn lemma_pass_shape(commands: Seq<Command>)
    requires
        replay(commands) is Some,
    ensures
        replay(commands) == Some(PassPoint::Geometry) ==> only_mesh_draws(commands),
        complete_pass(commands) ==> exists|k: int| changes_subpass_at(commands, k),
    decreases commands.len(),
{
    if commands.len() > 0 {
        let before = commands.drop_last();
        lemma_pass_shape(before);
        if replay(before) == Some(PassPoint::Geometry) {
            assert forall|i: int| 0 <= i < before.len() implies #[trigger] commands[i]
                is DrawMesh by {
                assert(commands[i] == before[i]);
            }
            if complete_pass(commands) {
                assert(changes_subpass_at(commands, commands.len() - 1));
            }
        } else {
            let k = choose|k: int| changes_subpass_at(before, k);
            assert forall|i: int| 0 <= i < k implies #[trigger] commands[i] is DrawMesh by {
                assert(commands[i] == before[i]);
            }
            assert forall|i: int| k < i < commands.len() implies !(#[trigger] commands[i]
                is DrawMesh) && !(commands[i] is NextSubpass) by {
                if i < commands.len() - 1 {
                    assert(commands[i] == before[i]);
                }
            }
            assert(changes_subpass_at(commands, k));
        }
    }
}

} // verus!
