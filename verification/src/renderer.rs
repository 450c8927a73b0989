//! The frame orchestrator.
//!
//! The renderer takes the calls of the application and the reports of the
//! backend, and answers each with the action that is due. A call out of
//! order costs the frame and nothing else: its commands are dropped, and
//! nothing of it is submitted.

use vstd::prelude::*;
use crate::command::{complete_pass, geometry_draws, Command};
use crate::frame::{
    Action, AcquireOutcome, FrameFuture, PresentOutcome, Submission, SwapchainOutcome,
};
use crate::gbuffer::{window_size_dependent_setup, Extent, GBuffer, Viewport};
use crate::mesh::Model;
use crate::model::{
    fits, lemma_ambient_fits, lemma_closed_commands_complete, lemma_geometry_fits, lemma_one_fits,
    lemma_record_wf, lemma_recreate_wf, FrameView, RendererView,
};
use crate::shading::{
    AmbientData, CameraData, DirectionalLight, DirectionalLightData, Mat4, PointLight,
    PushConstants, VpData, VP, ONE, ONE_TENTH,
};
use crate::skybox::Skybox;
use crate::stage::{transition, Call, Effect, RenderStage};

verus! {

/// The resources of the frame under construction.
struct FrameResources {
    image_index: u32,
    commands: Vec<Command>,
}

/// The frame orchestrator.
pub struct Renderer {
    render_stage: RenderStage,
    frame: Option<FrameResources>,
    submitted: Ghost<nat>,
    in_flight: bool,
    vp: VP,
    vp_buffer: VpData,
    ambient: AmbientData,
    gbuffer: GBuffer,
    viewport: Viewport,
}

impl View for Renderer {
    type V = RendererView;

    closed spec fn view(&self) -> RendererView {
        RendererView {
            stage: self.render_stage,
            frame: match self.frame {
                Some(frame) => Some(
                    FrameView { image_index: frame.image_index, commands: frame.commands@ },
                ),
                None => None,
            },
            submitted: self.submitted@,
            in_flight: self.in_flight,
            vp: self.vp,
            vp_buffer: self.vp_buffer,
            ambient: self.ambient,
            gbuffer: self.gbuffer@,
            viewport: self.viewport,
        }
    }
}

impl Renderer {
    /// A renderer at rest for a swapchain of `image_count` images of
    /// `image_extent`, with the whole attachment set for it. The camera
    /// looks through the identity view and `projection`.
    pub fn new(image_extent: Extent, image_count: u32, projection: Mat4) -> (renderer: Renderer)
        ensures
            renderer@.initial(image_extent, image_count as nat, projection),
            renderer@.wf(),
    {
        proof {
            reveal(RendererView::wf);
        }
        let mut vp = VP::new();
        vp.projection = projection;
        let mut viewport = Viewport { extent: image_extent };
        let gbuffer = window_size_dependent_setup(image_extent, image_count, &mut viewport);
        let ambient = AmbientData { color: [ONE, ONE, ONE], intensity: ONE_TENTH };
        Renderer {
            render_stage: RenderStage::Stopped,
            frame: None,
            submitted: Ghost(0),
            in_flight: false,
            vp,
            vp_buffer: VpData { view: vp.view, projection },
            ambient,
            gbuffer,
            viewport,
        }
    }

    /// The stage that the renderer is in.
    pub fn stage(&self) -> (stage: RenderStage)
        ensures
            stage == self@.stage,
    {
        self.render_stage
    }

    /// The swapchain image of the open frame.
    pub fn image_index(&self) -> (index: Option<u32>)
        ensures
            index == match self@.frame {
                Some(frame) => Some(frame.image_index),
                None => None,
            },
    {
        match &self.frame {
            Some(frame) => Some(frame.image_index),
            None => None,
        }
    }

    /// The number of commands recorded in the open frame.
    pub fn recorded(&self) -> (n: Option<usize>)
        ensures
            n matches Some(len) ==> self@.frame is Some && len == self@.frame->0.commands.len(),
            n is None ==> self@.frame is None,
    {
        match &self.frame {
            Some(frame) => Some(frame.commands.len()),
            None => None,
        }
    }

    /// The attachment set in use.
    pub fn gbuffer(&self) -> (gbuffer: &GBuffer)
        ensures
            gbuffer@ == self@.gbuffer,
    {
        &self.gbuffer
    }

    /// The viewport in use.
    pub fn viewport(&self) -> (viewport: Viewport)
        ensures
            viewport == self@.viewport,
    {
        self.viewport
    }

    /// The camera on the host.
    pub fn vp(&self) -> (vp: VP)
        ensures
            vp == self@.vp,
    {
        self.vp
    }

    /// What the uniform buffer of the geometry pass holds.
    pub fn vp_data(&self) -> (data: VpData)
        ensures
            data == self@.vp_buffer,
    {
        self.vp_buffer
    }

    /// What the uniform buffer of the ambient pass holds.
    pub fn ambient_data(&self) -> (data: AmbientData)
        ensures
            data == self@.ambient,
    {
        self.ambient
    }

    /// Drops the frame and stops.
    fn reject(&mut self) -> (action: Action)
        requires
            old(self)@.wf(),
        ensures
            final(self)@ == old(self)@.reject().0,
            action@ == old(self)@.reject().1,
            final(self)@.wf(),
    {
        proof {
            reveal(RendererView::wf);
        }
        let action = match self.render_stage {
            RenderStage::NeedsRedraw => Action::Recreate,
            _ => Action::Abort,
        };
        self.render_stage = RenderStage::Stopped;
        self.frame = None;
        action
    }

    /// Appends the commands of a recording call to the open frame.
    fn record(&mut self, call: Call, commands: Vec<Command>) -> (action: Action)
        requires
            old(self)@.wf(),
            call != Call::Start,
            call != Call::Finish,
            fits(old(self)@, call, commands@),
        ensures
            final(self)@ == old(self)@.record(call, commands@).0,
            action@ == old(self)@.record(call, commands@).1,
            final(self)@.wf(),
    {
        proof {
            lemma_record_wf(self@, call, commands@);
        }
        let (next, effect) = transition(self.render_stage, call);
        match effect {
            Effect::Record => {
                match self.frame.take() {
                    Some(frame) => {
                        let image_index = frame.image_index;
                        let mut log = frame.commands;
                        let ghost before = log@;
                        let mut i: usize = 0;
                        while i < commands.len()
                            invariant
                                i <= commands@.len(),
                                log@ == before + commands@.subrange(0, i as int),
                            decreases commands@.len() - i,
                        {
                            log.push(commands[i]);
                            i = i + 1;
                        }
                        assert(commands@.subrange(0, commands@.len() as int) =~= commands@);
                        self.frame = Some(FrameResources { image_index, commands: log });
                        self.render_stage = next;
                        Action::Record(commands)
                    },
                    None => self.reject(),
                }
            },
            _ => self.reject(),
        }
    }

    /// Begins a frame.
    ///
    /// At rest the renderer enters the geometry stage and asks for a
    /// swapchain image; the frame opens when `acquired` reports one. Where
    /// the swapchain is due for rebuilding, the rebuild is asked for and no
    /// frame begins. In any other stage the call is out of order and drops
    /// the frame.
    pub fn start(&mut self) -> (action: Action)
        requires
            old(self)@.wf(),
        ensures
            final(self)@ == old(self)@.start().0,
            action@ == old(self)@.start().1,
            final(self)@.wf(),
    {
        proof {
            reveal(RendererView::wf);
        }
        let (next, effect) = transition(self.render_stage, Call::Start);
        match effect {
            Effect::Acquire => {
                self.render_stage = next;
                self.frame = None;
                Action::Acquire
            },
            _ => self.reject(),
        }
    }

    /// Takes the report on the swapchain image asked for by `start`.
    ///
    /// On an image that is neither suboptimal nor without a framebuffer the
    /// frame opens, empty, and the render pass is to begin on it. Otherwise
    /// the frame is skipped: what was acquired is to be dropped, and the
    /// swapchain is marked for rebuilding. A report that no `start` waits
    /// for is a call out of order.
    pub fn acquired(&mut self, outcome: AcquireOutcome) -> (action: Action)
        requires
            old(self)@.wf(),
        ensures
            final(self)@ == old(self)@.acquired(outcome).0,
            action@ == old(self)@.acquired(outcome).1,
            final(self)@.wf(),
    {
        proof {
            reveal(RendererView::wf);
        }
        let waiting = match self.render_stage {
            RenderStage::Deferred => self.frame.is_none(),
            _ => false,
        };
        if !waiting {
            return self.reject();
        }
        match outcome {
            AcquireOutcome::Acquired { image_index, suboptimal } => {
                if !suboptimal && (image_index as usize) < self.gbuffer.image_count() {
                    let commands: Vec<Command> = Vec::new();
                    self.frame = Some(FrameResources { image_index, commands });
                    return Action::Begin { image_index };
                }
            },
            AcquireOutcome::OutOfDate => {},
        }
        self.render_stage = RenderStage::NeedsRedraw;
        Action::Abort
    }

    /// Draws the meshes of `model` into the G-buffer.
    ///
    /// In the geometry stage of an open frame, one draw is recorded for each
    /// mesh that has its vertex buffer, its index buffer and its descriptor
    /// set, in the order of the meshes; a mesh that lacks one of them is
    /// passed over. Anywhere else the call is out of order.
    pub fn geometry(&mut self, model: &Model, push_constants: &PushConstants) -> (action: Action)
        requires
            old(self)@.wf(),
        ensures
            final(self)@ == old(self)@.geometry(model.meshes@, *push_constants).0,
            action@ == old(self)@.geometry(model.meshes@, *push_constants).1,
            final(self)@.wf(),
    {
        let mut draws: Vec<Command> = Vec::new();
        let mut i: usize = 0;
        while i < model.meshes.len()
            invariant
                i <= model.meshes@.len(),
                draws@ == geometry_draws(model.meshes@.take(i as int), *push_constants),
            decreases model.meshes@.len() - i,
        {
            let mesh = &model.meshes[i];
            proof {
                let upto = model.meshes@.take(i + 1);
                assert(upto.drop_last() =~= model.meshes@.take(i as int));
            }
            if mesh.uploaded() {
                let index_count: u32 = match &mesh.index_buffer {
                    Some(buffer) => buffer.len,
                    None => 0,
                };
                draws.push(
                    Command::DrawMesh { mesh: i, index_count, push_constants: *push_constants },
                );
            }
            i = i + 1;
        }
        proof {
            assert(model.meshes@.take(model.meshes@.len() as int) =~= model.meshes@);
            lemma_geometry_fits(self@, model.meshes@, *push_constants);
        }
        self.record(Call::Geometry, draws)
    }

    /// Replaces the ambient light.
    pub fn set_ambient(&mut self, color: [u32; 3], intensity: u32) -> (data: AmbientData)
        requires
            old(self)@.wf(),
        ensures
            final(self)@ == old(self)@.set_ambient(color, intensity),
            data == final(self)@.ambient,
            final(self)@.wf(),
    {
        proof {
            reveal(RendererView::wf);
        }
        self.ambient = AmbientData { color, intensity };
        self.ambient
    }

    /// Ends the geometry pass and lights the scene evenly.
    ///
    /// In the geometry stage of an open frame the change of subpass and the
    /// ambient draw are recorded. Anywhere else the call is out of order.
    pub fn ambient(&mut self) -> (action: Action)
        requires
            old(self)@.wf(),
        ensures
            final(self)@ == old(self)@.ambient().0,
            action@ == old(self)@.ambient().1,
            final(self)@.wf(),
    {
        let mut commands: Vec<Command> = Vec::new();
        commands.push(Command::NextSubpass);
        commands.push(Command::DrawAmbient { ambient: self.ambient });
        proof {
            assert(commands@ =~= seq![
                Command::NextSubpass,
                Command::DrawAmbient { ambient: self@.ambient },
            ]);
            lemma_ambient_fits(self@);
        }
        self.record(Call::Ambient, commands)
    }

    /// Records the one command of a lighting call.
    fn record_one(&mut self, call: Call, command: Command) -> (action: Action)
        requires
            old(self)@.wf(),
            call != Call::Start,
            call != Call::Finish,
            fits(old(self)@, call, seq![command]),
        ensures
            final(self)@ == old(self)@.record(call, seq![command]).0,
            action@ == old(self)@.record(call, seq![command]).1,
            final(self)@.wf(),
    {
        let mut commands: Vec<Command> = Vec::new();
        commands.push(command);
        self.record(call, commands)
    }

    /// Adds the light of `directional_light`.
    ///
    /// After the ambient draw, or after another light, one draw is recorded
    /// with the light and the position of the camera. Anywhere else the call
    /// is out of order.
    pub fn directional(&mut self, directional_light: &DirectionalLight) -> (action: Action)
        requires
            old(self)@.wf(),
        ensures
            final(self)@ == old(self)@.directional(*directional_light).0,
            action@ == old(self)@.directional(*directional_light).1,
            final(self)@.wf(),
    {
        let command = Command::DrawDirectional {
            light: self.generate_directional_buffer(directional_light),
            camera: CameraData { position: self.vp.camera_pos },
        };
        proof {
            lemma_one_fits(self@, Call::Directional, command);
        }
        self.record_one(Call::Directional, command)
    }

    /// Adds the light of `light`.
    ///
    /// After the ambient draw, or after another light, one draw is recorded
    /// with the light and the position of the camera. Anywhere else the call
    /// is out of order.
    pub fn pointlight(&mut self, light: &PointLight) -> (action: Action)
        requires
            old(self)@.wf(),
        ensures
            final(self)@ == old(self)@.pointlight(*light).0,
            action@ == old(self)@.pointlight(*light).1,
            final(self)@.wf(),
    {
        let command = Command::DrawPointLight {
            light: light.uniform(),
            camera: CameraData { position: self.vp.camera_pos },
        };
        proof {
            lemma_one_fits(self@, Call::PointLight, command);
        }
        self.record_one(Call::PointLight, command)
    }

    /// Fills the background with `skybox`.
    ///
    /// After a light, one draw is recorded, of the cube image of the skybox.
    /// Anywhere else the call is out of order.
    pub fn skybox(&mut self, skybox: &Skybox) -> (action: Action)
        requires
            old(self)@.wf(),
        ensures
            final(self)@ == old(self)@.skybox(*skybox).0,
            action@ == old(self)@.skybox(*skybox).1,
            final(self)@.wf(),
    {
        let command = Command::DrawSkybox { cubemap: skybox.cubemap };
        proof {
            lemma_one_fits(self@, Call::Skybox, command);
        }
        self.record_one(Call::Skybox, command)
    }

    /// Shows where `directional_light` stands.
    ///
    /// After a light, one draw of the proxy mesh is recorded, and only
    /// `finish` may follow. Anywhere else the call is out of order.
    pub fn light_object(&mut self, directional_light: &DirectionalLight) -> (action: Action)
        requires
            old(self)@.wf(),
        ensures
            final(self)@ == old(self)@.light_object(*directional_light).0,
            action@ == old(self)@.light_object(*directional_light).1,
            final(self)@.wf(),
    {
        let command = Command::DrawLightObject { light: directional_light.uniform() };
        proof {
            lemma_one_fits(self@, Call::LightObject, command);
        }
        self.record_one(Call::LightObject, command)
    }

    /// The uniform block for one directional light.
    fn generate_directional_buffer(&self, light: &DirectionalLight) -> (data:
        DirectionalLightData)
        ensures
            data == light.spec_uniform(),
    {
        light.uniform()
    }

    /// Ends the frame.
    ///
    /// An open frame is handed over whole: its commands, with the change of
    /// subpass added where the frame never left the geometry pass, its
    /// image, and the completion kept in `previous_frame_end`, which a
    /// stand-in replaces. With no frame open nothing is submitted. Where the
    /// swapchain is due for rebuilding, the rebuild is asked for.
    pub fn finish(&mut self, previous_frame_end: &mut FrameFuture) -> (action: Action)
        requires
            old(self)@.wf(),
        ensures
            final(self)@ == old(self)@.finish(old(previous_frame_end)@).0,
            action@ == old(self)@.finish(old(previous_frame_end)@).1,
            final(previous_frame_end)@ == old(self)@.finish(old(previous_frame_end)@).2,
            final(self)@.wf(),
            action matches Action::Submit(submission) ==> complete_pass(submission@.commands),
    {
        proof {
            reveal(RendererView::wf);
            if self@.frame is Some {
                lemma_closed_commands_complete(self@);
            }
        }
        let (_next, effect) = transition(self.render_stage, Call::Finish);
        match effect {
            Effect::Submit => {
                match self.frame.take() {
                    Some(frame) => {
                        let advance_subpass = match self.render_stage {
                            RenderStage::Deferred => true,
                            _ => false,
                        };
                        let mut commands = frame.commands;
                        if advance_subpass {
                            commands.push(Command::NextSubpass);
                        }
                        let mut wait_for = FrameFuture::now();
                        std::mem::swap(&mut wait_for, previous_frame_end);
                        self.submitted = Ghost((self.submitted@ + 1) as nat);
                        self.in_flight = true;
                        self.render_stage = RenderStage::Stopped;
                        self.frame = None;
                        Action::Submit(
                            Submission {
                                image_index: frame.image_index,
                                commands,
                                advance_subpass,
                                wait_for,
                                serial: self.submitted,
                            },
                        )
                    },
                    None => {
                        self.render_stage = RenderStage::Stopped;
                        Action::Idle
                    },
                }
            },
            Effect::Idle => {
                self.frame = None;
                Action::Idle
            },
            _ => self.reject(),
        }
    }

    /// Takes the report on the submission handed out by `finish`.
    ///
    /// The end of a presented frame is kept in `previous_frame_end` for the
    /// next submission to wait for. After a failure a stand-in is kept
    /// instead, and an outdated swapchain is marked for rebuilding. A report
    /// with no submission in flight changes nothing.
    pub fn presented(&mut self, outcome: PresentOutcome, previous_frame_end: &mut FrameFuture)
        requires
            old(self)@.wf(),
        ensures
            final(self)@ == old(self)@.presented(outcome, old(previous_frame_end)@).0,
            final(previous_frame_end)@ == old(self)@.presented(outcome, old(previous_frame_end)@).1,
            final(self)@.wf(),
    {
        proof {
            reveal(RendererView::wf);
        }
        if !self.in_flight {
            return ;
        }
        self.in_flight = false;
        match outcome {
            PresentOutcome::Presented => {
                *previous_frame_end = FrameFuture::frame_end(self.submitted);
            },
            PresentOutcome::OutOfDate => {
                self.render_stage = RenderStage::NeedsRedraw;
                self.frame = None;
                *previous_frame_end = FrameFuture::now();
            },
            PresentOutcome::Failed => {
                *previous_frame_end = FrameFuture::now();
            },
        }
    }

    /// Takes the report on an attempt to recreate the swapchain.
    ///
    /// With a new swapchain the frame under construction is dropped, the
    /// whole attachment set is replaced by one of the new extent, the
    /// projection is replaced, the uniform buffer of the geometry pass
    /// follows, and the renderer comes to rest. A refusal alters nothing:
    /// the renderer is as it was before the call, and a later frame finds
    /// the swapchain out of date again and asks anew.
    pub fn recreate_swapchain(&mut self, outcome: SwapchainOutcome)
        requires
            old(self)@.wf(),
        ensures
            final(self)@ == old(self)@.recreate_swapchain(outcome),
            final(self)@.wf(),
    {
        proof {
            lemma_recreate_wf(self@, outcome);
        }
        match outcome {
            SwapchainOutcome::Recreated { image_extent, image_count, projection } => {
                self.frame = None;
                let mut viewport = self.viewport;
                let gbuffer = window_size_dependent_setup(image_extent, image_count, &mut viewport);
                self.gbuffer = gbuffer;
                self.viewport = viewport;
                self.vp.projection = projection;
                self.vp_buffer = VpData { view: self.vp.view, projection };
                self.render_stage = RenderStage::Stopped;
            },
            SwapchainOutcome::Rejected => {},
        }
    }

    /// Moves the camera: `view` is the new view matrix and `camera_pos` the
    /// position that it looks from. The uniform buffer of the geometry pass
    /// is to be rebuilt with what is returned.
    pub fn set_view(&mut self, view: &Mat4, camera_pos: [u32; 3]) -> (data: VpData)
        requires
            old(self)@.wf(),
        ensures
            final(self)@ == old(self)@.set_view(*view, camera_pos),
            data == final(self)@.vp_buffer,
            final(self)@.wf(),
    {
        proof {
            reveal(RendererView::wf);
        }
        self.vp.view = *view;
        self.vp.camera_pos = camera_pos;
        self.vp_buffer = VpData { view: *view, projection: self.vp.projection };
        self.vp_buffer
    }
}

} // verus!
