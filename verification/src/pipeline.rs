//! The render pass and the pipelines that draw in it.
//!
//! The pass has two subpasses. The first writes the G-buffer; the second
//! reads it and writes the image that is presented. Each kind of draw has a
//! pipeline of its own, bound to one of the two. None of this changes once
//! a renderer is built.

use vstd::prelude::*;
use crate::command::{changes_subpass_at, complete_pass, lemma_pass_shape, Command};
use crate::gbuffer::{binding_order, AttachmentKind};
use crate::shading::{ONE, ZERO};

verus! {

/// The pipelines of the renderer.
#[derive(Clone, Copy, Debug, PartialEq, Eq, Structural)]
pub enum PipelineKind {
    /// Writes the meshes into the G-buffer.
    Deferred,
    Ambient,
    Directional,
    PointLight,
    Skybox,
    /// Draws the proxy mesh of a light.
    LightObject,
}

/// The vertices that a pipeline takes.
#[derive(Clone, Copy, Debug, PartialEq, Eq, Structural)]
pub enum VertexInput {
    /// Position, normal, colour and texture coordinates.
    Normal,
    /// Position and colour.
    Colored,
    /// The corners of a quad that covers the screen.
    Dummy,
}

/// Which faces a pipeline leaves out.
#[derive(Clone, Copy, Debug, PartialEq, Eq, Structural)]
pub enum CullMode {
    Neither,
    Back,
}

/// What a pipeline does with the depth image.
#[derive(Clone, Copy, Debug, PartialEq, Eq, Structural)]
pub enum DepthTest {
    /// The depth image is not looked at.
    Off,
    /// Nearer fragments win and are written.
    Less,
    /// Fragments no farther than what is there are drawn; nothing is
    /// written.
    LessOrEqualReadOnly,
}

/// How a pipeline combines what it draws with what is there.
#[derive(Clone, Copy, Debug, PartialEq, Eq, Structural)]
pub enum Blend {
    /// What is drawn takes the place of what is there.
    Replace,
    /// Colours add up; of two alphas the greater stays.
    Additive,
}

/// The fixed state of a pipeline.
#[derive(Clone, Copy, Debug, PartialEq, Eq, Structural)]
pub struct PipelineConfig {
    pub vertex_input: VertexInput,
    pub cull_mode: CullMode,
    pub depth: DepthTest,
    pub blend: Blend,
    /// The subpass that the pipeline is bound to.
    pub subpass: u32,
    /// The number of colour attachments that it writes.
    pub color_attachments: u32,
}

/// What to do with an attachment when the pass begins and ends.
#[derive(Clone, Copy, Debug, PartialEq, Eq, Structural)]
pub struct AttachmentOps {
    /// The attachment is cleared when the pass begins.
    pub clear: bool,
    /// The attachment is kept when the pass ends.
    pub store: bool,
}

/// The value that an attachment is cleared to.
#[derive(Clone, Copy, Debug, PartialEq, Eq)]
pub enum ClearValue {
    /// Four components of a colour.
    Color([u32; 4]),
    /// The two components of the specular image.
    Pair([u32; 2]),
    /// A depth.
    Depth(u32),
}

/// The attachments that a subpass works on.
#[derive(Clone, Debug, PartialEq, Eq)]
pub struct Subpass {
    pub color: Vec<AttachmentKind>,
    pub depth_stencil: AttachmentKind,
    pub input: Vec<AttachmentKind>,
}

/// The images of the G-buffer that the geometry subpass writes and the
/// lighting subpass reads.
pub open spec fn gbuffer_kinds() -> Seq<AttachmentKind> {
    seq![
        AttachmentKind::Color,
        AttachmentKind::Normals,
        AttachmentKind::FragLocation,
        AttachmentKind::Specular,
    ]
}

/// The state of each pipeline.
pub open spec fn config_of(kind: PipelineKind) -> PipelineConfig {
    match kind {
        PipelineKind::Deferred => PipelineConfig {
            vertex_input: VertexInput::Normal,
            cull_mode: CullMode::Back,
            depth: DepthTest::Less,
            blend: Blend::Replace,
            subpass: 0,
            color_attachments: 4,
        },
        PipelineKind::Ambient | PipelineKind::Directional | PipelineKind::PointLight => PipelineConfig {
            vertex_input: VertexInput::Dummy,
            cull_mode: CullMode::Neither,
            depth: DepthTest::Off,
            blend: Blend::Additive,
            subpass: 1,
            color_attachments: 1,
        },
        PipelineKind::Skybox => PipelineConfig {
            vertex_input: VertexInput::Dummy,
            cull_mode: CullMode::Neither,
            depth: DepthTest::LessOrEqualReadOnly,
            blend: Blend::Replace,
            subpass: 1,
            color_attachments: 1,
        },
        PipelineKind::LightObject => PipelineConfig {
            vertex_input: VertexInput::Colored,
            cull_mode: CullMode::Back,
            depth: DepthTest::Less,
            blend: Blend::Replace,
            subpass: 1,
            color_attachments: 1,
        },
    }
}

/// The pipeline that a draw is made with; a change of subpass has none.
pub open spec fn pipeline_of(command: Command) -> Option<PipelineKind> {
    match command {
        Command::DrawMesh { .. } => Some(PipelineKind::Deferred),
        Command::NextSubpass => None,
        Command::DrawAmbient { .. } => Some(PipelineKind::Ambient),
        Command::DrawDirectional { .. } => Some(PipelineKind::Directional),
        Command::DrawPointLight { .. } => Some(PipelineKind::PointLight),
        Command::DrawSkybox { .. } => Some(PipelineKind::Skybox),
        Command::DrawLightObject { .. } => Some(PipelineKind::LightObject),
    }
}

/// The images of the G-buffer that the shaders of a pipeline read, in the
/// order of their bindings: the ambient term needs the colour alone, a light
/// needs all four, and the others read none.
pub open spec fn inputs_of(kind: PipelineKind) -> Seq<AttachmentKind> {
    match kind {
        PipelineKind::Ambient => seq![AttachmentKind::Color],
        PipelineKind::Directional | PipelineKind::PointLight => gbuffer_kinds(),
        _ => Seq::empty(),
    }
}

/// What each attachment is cleared to when the pass begins: colours to
/// opaque black, the specular image to nothing, the depth to the far plane.
pub open spec fn clear_of(kind: AttachmentKind) -> ClearValue {
    match kind {
        AttachmentKind::Specular => ClearValue::Pair([ZERO, ZERO]),
        AttachmentKind::Depth => ClearValue::Depth(ONE),
        _ => ClearValue::Color([ZERO, ZERO, ZERO, ONE]),
    }
}

/// Only the image that is presented outlives the pass; every attachment
/// starts out cleared.
pub open spec fn ops_of(kind: AttachmentKind) -> AttachmentOps {
    AttachmentOps { clear: true, store: kind == AttachmentKind::FinalColor }
}

impl PipelineKind {
    /// The fixed state of the pipeline.
    pub fn config(self) -> (config: PipelineConfig)
        ensures
            config == config_of(self),
    {
        match self {
            PipelineKind::Deferred => PipelineConfig {
                vertex_input: VertexInput::Normal,
                cull_mode: CullMode::Back,
                depth: DepthTest::Less,
                blend: Blend::Replace,
                subpass: 0,
                color_attachments: 4,
            },
            PipelineKind::Ambient | PipelineKind::Directional | PipelineKind::PointLight => PipelineConfig {
                vertex_input: VertexInput::Dummy,
                cull_mode: CullMode::Neither,
                depth: DepthTest::Off,
                blend: Blend::Additive,
                subpass: 1,
                color_attachments: 1,
            },
            PipelineKind::Skybox => PipelineConfig {
                vertex_input: VertexInput::Dummy,
                cull_mode: CullMode::Neither,
                depth: DepthTest::LessOrEqualReadOnly,
                blend: Blend::Replace,
                subpass: 1,
                color_attachments: 1,
            },
            PipelineKind::LightObject => PipelineConfig {
                vertex_input: VertexInput::Colored,
                cull_mode: CullMode::Back,
                depth: DepthTest::Less,
                blend: Blend::Replace,
                subpass: 1,
                color_attachments: 1,
            },
        }
    }
}

impl PipelineKind {
    /// The images of the G-buffer that the shaders of the pipeline read, in
    /// the order of their bindings.
    pub fn inputs(self) -> (kinds: Vec<AttachmentKind>)
        ensures
            kinds@ == inputs_of(self),
    {
        match self {
            PipelineKind::Ambient => {
                let mut kinds: Vec<AttachmentKind> = Vec::new();
                kinds.push(AttachmentKind::Color);
                kinds
            },
            PipelineKind::Directional | PipelineKind::PointLight => gbuffer_attachments(),
            _ => Vec::new(),
        }
    }
}

impl Command {
    /// The pipeline that the command draws with, if it draws.
    pub fn pipeline(&self) -> (kind: Option<PipelineKind>)
        ensures
            kind == pipeline_of(*self),
    {
        match self {
            Command::DrawMesh { .. } => Some(PipelineKind::Deferred),
            Command::NextSubpass => None,
            Command::DrawAmbient { .. } => Some(PipelineKind::Ambient),
            Command::DrawDirectional { .. } => Some(PipelineKind::Directional),
            Command::DrawPointLight { .. } => Some(PipelineKind::PointLight),
            Command::DrawSkybox { .. } => Some(PipelineKind::Skybox),
            Command::DrawLightObject { .. } => Some(PipelineKind::LightObject),
        }
    }
}

/// What an attachment is cleared to when the pass begins.
pub fn clear_value(kind: AttachmentKind) -> (value: ClearValue)
    ensures
        value == clear_of(kind),
{
    match kind {
        AttachmentKind::Specular => ClearValue::Pair([ZERO, ZERO]),
        AttachmentKind::Depth => ClearValue::Depth(ONE),
        _ => ClearValue::Color([ZERO, ZERO, ZERO, ONE]),
    }
}

/// What to do with an attachment when the pass begins and ends.
pub fn attachment_ops(kind: AttachmentKind) -> (ops: AttachmentOps)
    ensures
        ops == ops_of(kind),
{
    let store = match kind {
        AttachmentKind::FinalColor => true,
        _ => false,
    };
    AttachmentOps { clear: true, store }
}

fn gbuffer_attachments() -> (kinds: Vec<AttachmentKind>)
    ensures
        kinds@ == gbuffer_kinds(),
{
    let mut kinds: Vec<AttachmentKind> = Vec::new();
    kinds.push(AttachmentKind::Color);
    kinds.push(AttachmentKind::Normals);
    kinds.push(AttachmentKind::FragLocation);
    kinds.push(AttachmentKind::Specular);
    kinds
}

/// The geometry subpass: it writes the G-buffer, under the depth test, and
/// reads nothing.
pub fn geometry_subpass() -> (subpass: Subpass)
    ensures
        subpass.color@ == gbuffer_kinds(),
        subpass.depth_stencil == AttachmentKind::Depth,
        subpass.input@ == Seq::<AttachmentKind>::empty(),
        subpass.color@.len() == config_of(PipelineKind::Deferred).color_attachments,
{
    Subpass {
        color: gbuffer_attachments(),
        depth_stencil: AttachmentKind::Depth,
        input: Vec::new(),
    }
}

/// The lighting subpass: it reads all that the geometry subpass wrote, and
/// writes the image that is presented.
pub fn lighting_subpass() -> (subpass: Subpass)
    ensures
        subpass.color@ == seq![AttachmentKind::FinalColor],
        subpass.depth_stencil == AttachmentKind::Depth,
        subpass.input@ == gbuffer_kinds(),
        forall|kind: PipelineKind|
            #![trigger config_of(kind)]
            config_of(kind).subpass == 1 ==> subpass.color@.len() == config_of(
                kind,
            ).color_attachments,
{
    let mut color: Vec<AttachmentKind> = Vec::new();
    color.push(AttachmentKind::FinalColor);
    Subpass { color, depth_stencil: AttachmentKind::Depth, input: gbuffer_attachments() }
}

/// The draws before position `k` are made with pipelines of the first
/// subpass, the draws after it with pipelines of the second.
pub open spec fn pipelines_split_at(commands: Seq<Command>, k: int) -> bool {
    &&& forall|i: int|
        0 <= i < k ==> subpass_of(#[trigger] commands[i]) == Some(0u32)
    &&& forall|i: int|
        k < i < commands.len() ==> subpass_of(#[trigger] commands[i]) == Some(1u32)
}

/// The subpass of the pipeline that a command draws with.
pub open spec fn subpass_of(command: Command) -> Option<u32> {
    match pipeline_of(command) {
        Some(kind) => Some(config_of(kind).subpass),
        None => None,
    }
}

/// In a command list that can be submitted, every draw is made with a
/// pipeline of the subpass in which it stands: there is one change of
/// subpass, the draws before it use pipelines of the first subpass, and the
/// draws after it pipelines of the second.
pub proof fn law_draws_match_their_subpass(commands: Seq<Command>)
    requires
        complete_pass(commands),
    ensures
        exists|k: int| changes_subpass_at(commands, k) && pipelines_split_at(commands, k),
{
    lemma_pass_shape(commands);
    let k = choose|k: int| changes_subpass_at(commands, k);
    assert(pipelines_split_at(commands, k));
}

/// A pipeline reads the G-buffer only in the lighting subpass, and only
/// images that the geometry subpass wrote.
pub proof fn law_inputs_come_from_the_geometry_pass(kind: PipelineKind)
    ensures
        config_of(kind).subpass == 0 ==> inputs_of(kind).len() == 0,
        forall|i: int|
            0 <= i < inputs_of(kind).len() ==> gbuffer_kinds().contains(
                #[trigger] inputs_of(kind)[i],
            ),
{
    assert forall|i: int| 0 <= i < inputs_of(kind).len() implies gbuffer_kinds().contains(
        #[trigger] inputs_of(kind)[i],
    ) by {
        assert(inputs_of(kind)[i] == gbuffer_kinds()[i]);
    }
}

/// A framebuffer binds the attachments in the order in which the pass
/// numbers them: the presented image, the four images of the G-buffer, the
/// depth image.
pub proof fn law_framebuffer_binds_the_pass()
    ensures
        binding_order() == seq![AttachmentKind::FinalColor] + gbuffer_kinds() + seq![
            AttachmentKind::Depth,
        ],
{
    assert(binding_order() =~= seq![AttachmentKind::FinalColor] + gbuffer_kinds() + seq![
        AttachmentKind::Depth,
    ]);
}

} // verus!
