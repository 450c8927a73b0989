//! The orchestrator as a state machine over plain values.
//!
//! Each entry point of the renderer is one function here, from the state
//! before the call to the state after it and the action asked of the
//! backend. The renderer itself is held to this model by its contracts.

use vstd::prelude::*;
use crate::command::{
    advance, geometry_draws, lemma_replay_geometry, lemma_replay_push, point_of, replay, Command,
    PassPoint,
};
use crate::frame::{
    ActionView, AcquireOutcome, Completion, PresentOutcome, SubmissionView, SwapchainOutcome,
};
use crate::gbuffer::{gbuffer_for, Extent, GBufferView, Viewport};
use crate::mesh::Mesh;
use crate::shading::{
    AmbientData, CameraData, DirectionalLight, Mat4, PointLight, PushConstants, VpData, VP, ONE,
    ONE_TENTH, ZERO,
};
use crate::skybox::Skybox;
use crate::stage::{accepts, recording, target, Call, RenderStage};

verus! {

/// The resources of the frame that is being recorded.
pub struct FrameView {
    /// The swapchain image that was acquired for the frame.
    pub image_index: u32,
    /// The commands recorded so far.
    pub commands: Seq<Command>,
}

/// The state of the orchestrator.
pub struct RendererView {
    pub stage: RenderStage,
    /// The frame under construction, if one is open.
    pub frame: Option<FrameView>,
    /// The number of frames handed over for submission so far.
    pub submitted: nat,
    /// The outcome of the last submission has not been reported yet.
    pub in_flight: bool,
    /// The camera on the host.
    pub vp: VP,
    /// What the uniform buffer of the geometry pass holds.
    pub vp_buffer: VpData,
    /// What the uniform buffer of the ambient pass holds.
    pub ambient: AmbientData,
    pub gbuffer: GBufferView,
    pub viewport: Viewport,
}

/// The ambient light that a renderer starts with: white, at a tenth.
pub open spec fn default_ambient(ambient: AmbientData) -> bool {
    ambient.color@ == seq![ONE, ONE, ONE] && ambient.intensity == ONE_TENTH
}

impl RendererView {
    /// What holds of the state between any two calls.
    ///
    /// - Frame resources exist only while a frame is recorded, and from the
    ///   ambient pass on they always do.
    /// - The commands of the open frame are where its stage says, and its
    ///   image has a framebuffer.
    /// - The uniform buffer of the geometry pass mirrors the camera.
    /// - The attachment set is whole, and the viewport covers it.
    #[verifier::opaque]
    pub open spec fn wf(self) -> bool {
        &&& self.frame is Some ==> recording(self.stage)
        &&& recording(self.stage) && self.stage != RenderStage::Deferred ==> self.frame is Some
        &&& self.frame matches Some(frame) ==> {
            &&& frame.image_index < self.gbuffer.framebuffers.len()
            &&& replay(frame.commands) == Some(point_of(self.stage))
        }
        &&& self.vp_buffer == self.vp.data()
        &&& self.gbuffer.wf()
        &&& self.viewport.extent == self.gbuffer.extent()
        &&& self.in_flight ==> self.submitted > 0
    }

    /// A frame has been started and waits for its swapchain image.
    pub open spec fn awaits_image(self) -> bool {
        self.stage == RenderStage::Deferred && self.frame is None
    }

    /// The state of a renderer just built for a swapchain of `image_count`
    /// images of `image_extent`.
    pub open spec fn initial(self, image_extent: Extent, image_count: nat, projection: Mat4) -> bool {
        &&& self.stage == RenderStage::Stopped
        &&& self.frame is None
        &&& self.submitted == 0
        &&& !self.in_flight
        &&& self.vp.view.cols@ == Mat4::spec_identity()
        &&& self.vp.projection == projection
        &&& self.vp.camera_pos@ == seq![ZERO, ZERO, ZERO]
        &&& self.vp_buffer == self.vp.data()
        &&& default_ambient(self.ambient)
        &&& self.gbuffer == gbuffer_for(image_extent, image_count)
        &&& self.viewport.extent == image_extent
    }

    /// The state with the frame dropped and the stage stopped.
    pub open spec fn dropped(self) -> RendererView {
        RendererView { stage: RenderStage::Stopped, frame: None, ..self }
    }

    /// What a call out of order comes to: the frame is dropped and nothing is
    /// submitted. Where the swapchain was waiting to be rebuilt, the rebuild
    /// is asked for.
    pub open spec fn reject(self) -> (RendererView, ActionView) {
        (
            self.dropped(),
            if self.stage == RenderStage::NeedsRedraw {
                ActionView::Recreate
            } else {
                ActionView::Abort
            },
        )
    }

    /// `start`: from rest, a frame begins and waits for its image.
    pub open spec fn start(self) -> (RendererView, ActionView) {
        if self.stage == RenderStage::Stopped {
            (RendererView { stage: RenderStage::Deferred, frame: None, ..self }, ActionView::Acquire)
        } else {
            self.reject()
        }
    }

    /// Whether `outcome` is an image that a frame can be drawn on.
    pub open spec fn usable(self, outcome: AcquireOutcome) -> bool {
        outcome matches AcquireOutcome::Acquired { image_index, suboptimal } && !suboptimal
            && image_index < self.gbuffer.framebuffers.len()
    }

    /// `acquired`: a frame that waits for its image opens on a usable one;
    /// without one, the swapchain is marked for rebuilding and the frame is
    /// skipped: what was acquired is to be dropped.
    pub open spec fn acquired(self, outcome: AcquireOutcome) -> (RendererView, ActionView) {
        if self.awaits_image() {
            if self.usable(outcome) {
                let image_index = outcome->image_index;
                (
                    RendererView {
                        frame: Some(FrameView { image_index, commands: Seq::empty() }),
                        ..self
                    },
                    ActionView::Begin { image_index },
                )
            } else {
                (RendererView { stage: RenderStage::NeedsRedraw, ..self }, ActionView::Abort)
            }
        } else {
            self.reject()
        }
    }

    /// A recording call: where the stage accepts it and a frame is open, its
    /// commands are appended and the stage moves on.
    pub open spec fn record(self, call: Call, commands: Seq<Command>) -> (
        RendererView,
        ActionView,
    ) {
        if accepts(self.stage, call) && self.frame is Some {
            (
                RendererView {
                    stage: target(self.stage, call),
                    frame: Some(
                        FrameView {
                            image_index: self.frame->0.image_index,
                            commands: self.frame->0.commands + commands,
                        },
                    ),
                    ..self
                },
                ActionView::Record(commands),
            )
        } else {
            self.reject()
        }
    }

    /// Where the camera stands, as the lighting passes are told.
    pub open spec fn camera(self) -> CameraData {
        CameraData { position: self.vp.camera_pos }
    }

    /// `geometry`: one draw for each uploaded mesh of the model.
    pub open spec fn geometry(self, meshes: Seq<Mesh>, push_constants: PushConstants) -> (
        RendererView,
        ActionView,
    ) {
        self.record(Call::Geometry, geometry_draws(meshes, push_constants))
    }

    /// `ambient`: the subpass changes and the ambient term is drawn.
    pub open spec fn ambient(self) -> (RendererView, ActionView) {
        self.record(
            Call::Ambient,
            seq![Command::NextSubpass, Command::DrawAmbient { ambient: self.ambient }],
        )
    }

    /// `directional`: one draw with the light and the camera position.
    pub open spec fn directional(self, light: DirectionalLight) -> (RendererView, ActionView) {
        self.record(
            Call::Directional,
            seq![
                Command::DrawDirectional {
                    light: light.spec_uniform(),
                    camera: self.camera(),
                },
            ],
        )
    }

    /// `pointlight`: one draw with the light and the camera position.
    pub open spec fn pointlight(self, light: PointLight) -> (RendererView, ActionView) {
        self.record(
            Call::PointLight,
            seq![Command::DrawPointLight { light: light.spec_uniform(), camera: self.camera() }],
        )
    }

    /// `skybox`: one draw.
    pub open spec fn skybox(self, skybox: Skybox) -> (RendererView, ActionView) {
        self.record(Call::Skybox, seq![Command::DrawSkybox { cubemap: skybox.cubemap }])
    }

    /// `light_object`: one draw of the proxy mesh of the light.
    pub open spec fn light_object(self, light: DirectionalLight) -> (RendererView, ActionView) {
        self.record(Call::LightObject, seq![Command::DrawLightObject { light: light.spec_uniform() }])
    }

    /// The commands of the open frame as they are submitted: a frame still
    /// in the geometry subpass is taken into the lighting subpass first.
    pub open spec fn closed_commands(self) -> Seq<Command> {
        if self.stage == RenderStage::Deferred {
            self.frame->0.commands.push(Command::NextSubpass)
        } else {
            self.frame->0.commands
        }
    }

    /// `finish`: an open frame is handed over for submission, together with
    /// the completion that was kept for it; a stand-in takes its place. With
    /// no frame open there is nothing to submit.
    pub open spec fn finish(self, previous_frame_end: Completion) -> (
        RendererView,
        ActionView,
        Completion,
    ) {
        if self.stage != RenderStage::NeedsRedraw && self.frame is Some {
            (
                RendererView {
                    stage: RenderStage::Stopped,
                    frame: None,
                    submitted: self.submitted + 1,
                    in_flight: true,
                    ..self
                },
                ActionView::Submit(
                    SubmissionView {
                        image_index: self.frame->0.image_index,
                        commands: self.closed_commands(),
                        advance_subpass: self.stage == RenderStage::Deferred,
                        wait_for: previous_frame_end,
                        serial: self.submitted + 1,
                    },
                ),
                Completion::Now,
            )
        } else if self.stage == RenderStage::NeedsRedraw {
            (self.dropped(), ActionView::Recreate, previous_frame_end)
        } else {
            (self.dropped(), ActionView::Idle, previous_frame_end)
        }
    }

    /// `presented`: the end of the submission in flight becomes the
    /// completion kept for the next frame. Where the submission failed, a
    /// stand-in is kept, and an outdated swapchain is marked for rebuilding.
    /// A report with nothing in flight changes nothing.
    pub open spec fn presented(self, outcome: PresentOutcome, previous_frame_end: Completion) -> (
        RendererView,
        Completion,
    ) {
        if !self.in_flight {
            (self, previous_frame_end)
        } else {
            match outcome {
                PresentOutcome::Presented => (
                    RendererView { in_flight: false, ..self },
                    Completion::FrameEnd(self.submitted),
                ),
                PresentOutcome::OutOfDate => (
                    RendererView {
                        in_flight: false,
                        stage: RenderStage::NeedsRedraw,
                        frame: None,
                        ..self
                    },
                    Completion::Now,
                ),
                PresentOutcome::Failed => (RendererView { in_flight: false, ..self }, Completion::Now),
            }
        }
    }

    /// `recreate_swapchain`: a new swapchain brings a whole new attachment
    /// set and the projection for it, mirrored in the uniform buffer; the
    /// view stays, the frame under construction is dropped, and the renderer
    /// comes to rest. A refusal alters nothing.
    pub open spec fn recreate_swapchain(self, outcome: SwapchainOutcome) -> RendererView {
        match outcome {
            SwapchainOutcome::Recreated { image_extent, image_count, projection } => RendererView {
                stage: RenderStage::Stopped,
                frame: None,
                vp: VP { projection, ..self.vp },
                vp_buffer: VpData { view: self.vp.view, projection },
                gbuffer: gbuffer_for(image_extent, image_count as nat),
                viewport: Viewport { extent: image_extent },
                ..self
            },
            SwapchainOutcome::Rejected => self,
        }
    }

    /// `set_view`: the camera moves, and the uniform buffer follows.
    pub open spec fn set_view(self, view: Mat4, camera_pos: [u32; 3]) -> RendererView {
        RendererView {
            vp: VP { view, camera_pos, ..self.vp },
            vp_buffer: VpData { view, projection: self.vp.projection },
            ..self
        }
    }

    /// `set_ambient`: the ambient light changes.
    pub open spec fn set_ambient(self, color: [u32; 3], intensity: u32) -> RendererView {
        RendererView { ambient: AmbientData { color, intensity }, ..self }
    }
}

/// The commands of a recording call lead the open frame from the point of
/// its stage to the point of the stage that follows.
pub open spec fn fits(s: RendererView, call: Call, commands: Seq<Command>) -> bool {
    accepts(s.stage, call) && s.frame is Some ==> replay(s.frame->0.commands + commands) == Some(
        point_of(target(s.stage, call)),
    )
}

/// A recording call whose commands fit keeps the state in order.
pub proof fn lemma_record_wf(s: RendererView, call: Call, commands: Seq<Command>)
    requires
        s.wf(),
        call != Call::Start,
        call != Call::Finish,
        fits(s, call, commands),
    ensures
        s.record(call, commands).0.wf(),
{
    reveal(RendererView::wf);
}

/// The draws of a model fit the geometry call.
pub proof fn lemma_geometry_fits(s: RendererView, meshes: Seq<Mesh>, push_constants: PushConstants)
    requires
        s.wf(),
    ensures
        fits(s, Call::Geometry, geometry_draws(meshes, push_constants)),
{
    reveal(RendererView::wf);
    if accepts(s.stage, Call::Geometry) && s.frame is Some {
        lemma_replay_geometry(s.frame->0.commands, meshes, push_constants);
    }
}

/// One command fits a call where it leads from point to point.
pub proof fn lemma_one_fits(s: RendererView, call: Call, command: Command)
    requires
        s.wf(),
        accepts(s.stage, call) ==> advance(point_of(s.stage), command) == Some(
            point_of(target(s.stage, call)),
        ),
    ensures
        fits(s, call, seq![command]),
{
    reveal(RendererView::wf);
    if accepts(s.stage, call) && s.frame is Some {
        let before = s.frame->0.commands;
        lemma_replay_push(before, command);
        assert(before + seq![command] =~= before.push(command));
    }
}

/// The change of subpass followed by the ambient draw fits the ambient call.
pub proof fn lemma_ambient_fits(s: RendererView)
    requires
        s.wf(),
    ensures
        fits(
            s,
            Call::Ambient,
            seq![Command::NextSubpass, Command::DrawAmbient { ambient: s.ambient }],
        ),
{
    reveal(RendererView::wf);
    if accepts(s.stage, Call::Ambient) && s.frame is Some {
        let before = s.frame->0.commands;
        let draw = Command::DrawAmbient { ambient: s.ambient };
        lemma_replay_push(before, Command::NextSubpass);
        lemma_replay_push(before.push(Command::NextSubpass), draw);
        assert(before + seq![Command::NextSubpass, draw] =~= before.push(Command::NextSubpass).push(
            draw,
        ));
    }
}

/// Closing an open frame gives a command list that can be submitted.
pub proof fn lemma_closed_commands_complete(s: RendererView)
    requires
        s.wf(),
        s.frame is Some,
    ensures
        replay(s.closed_commands()) is Some,
        replay(s.closed_commands()) != Some(PassPoint::Geometry),
{
    reveal(RendererView::wf);
    if s.stage == RenderStage::Deferred {
        lemma_replay_push(s.frame->0.commands, Command::NextSubpass);
    }
}

/// A new attachment set leaves the state in order.
pub proof fn lemma_recreate_wf(s: RendererView, outcome: SwapchainOutcome)
    requires
        s.wf(),
    ensures
        s.recreate_swapchain(outcome).wf(),
{
    reveal(RendererView::wf);
}

/// `start` keeps the state in order.
pub proof fn lemma_start_wf(s: RendererView)
    requires
        s.wf(),
    ensures
        s.start().0.wf(),
{
    reveal(RendererView::wf);
}

/// `acquired` keeps the state in order.
pub proof fn lemma_acquired_wf(s: RendererView, outcome: AcquireOutcome)
    requires
        s.wf(),
    ensures
        s.acquired(outcome).0.wf(),
{
    reveal(RendererView::wf);
}

/// `finish` keeps the state in order.
pub proof fn lemma_finish_wf(s: RendererView, previous_frame_end: Completion)
    requires
        s.wf(),
    ensures
        s.finish(previous_frame_end).0.wf(),
{
    reveal(RendererView::wf);
}

/// `presented` keeps the state in order.
pub proof fn lemma_presented_wf(s: RendererView, outcome: PresentOutcome, previous_frame_end: Completion)
    requires
        s.wf(),
    ensures
        s.presented(outcome, previous_frame_end).0.wf(),
{
    reveal(RendererView::wf);
}

/// `geometry` keeps the state in order.
pub proof fn lemma_geometry_wf(s: RendererView, meshes: Seq<Mesh>, push_constants: PushConstants)
    requires
        s.wf(),
    ensures
        s.geometry(meshes, push_constants).0.wf(),
{
    lemma_geometry_fits(s, meshes, push_constants);
    lemma_record_wf(s, Call::Geometry, geometry_draws(meshes, push_constants));
}

/// `ambient` keeps the state in order.
pub proof fn lemma_ambient_wf(s: RendererView)
    requires
        s.wf(),
    ensures
        s.ambient().0.wf(),
{
    lemma_ambient_fits(s);
    lemma_record_wf(
        s,
        Call::Ambient,
        seq![Command::NextSubpass, Command::DrawAmbient { ambient: s.ambient }],
    );
}

/// `directional` keeps the state in order.
pub proof fn lemma_directional_wf(s: RendererView, light: DirectionalLight)
    requires
        s.wf(),
    ensures
        s.directional(light).0.wf(),
{
    let command = Command::DrawDirectional { light: light.spec_uniform(), camera: s.camera() };
    lemma_one_fits(s, Call::Directional, command);
    lemma_record_wf(s, Call::Directional, seq![command]);
}

/// `pointlight` keeps the state in order.
pub proof fn lemma_pointlight_wf(s: RendererView, light: PointLight)
    requires
        s.wf(),
    ensures
        s.pointlight(light).0.wf(),
{
    let command = Command::DrawPointLight { light: light.spec_uniform(), camera: s.camera() };
    lemma_one_fits(s, Call::PointLight, command);
    lemma_record_wf(s, Call::PointLight, seq![command]);
}

/// `skybox` keeps the state in order.
pub proof fn lemma_skybox_wf(s: RendererView, skybox: Skybox)
    requires
        s.wf(),
    ensures
        s.skybox(skybox).0.wf(),
{
    let command = Command::DrawSkybox { cubemap: skybox.cubemap };
    lemma_one_fits(s, Call::Skybox, command);
    lemma_record_wf(s, Call::Skybox, seq![command]);
}

/// `light_object` keeps the state in order.
pub proof fn lemma_light_object_wf(s: RendererView, light: DirectionalLight)
    requires
        s.wf(),
    ensures
        s.light_object(light).0.wf(),
{
    let command = Command::DrawLightObject { light: light.spec_uniform() };
    lemma_one_fits(s, Call::LightObject, command);
    lemma_record_wf(s, Call::LightObject, seq![command]);
}

/// `set_view` keeps the state in order.
pub proof fn lemma_set_view_wf(s: RendererView, view: Mat4, camera_pos: [u32; 3])
    requires
        s.wf(),
    ensures
        s.set_view(view, camera_pos).wf(),
{
    reveal(RendererView::wf);
}

/// `set_ambient` keeps the state in order.
pub proof fn lemma_set_ambient_wf(s: RendererView, color: [u32; 3], intensity: u32)
    requires
        s.wf(),
    ensures
        s.set_ambient(color, intensity).wf(),
{
    reveal(RendererView::wf);
}

} // verus!
