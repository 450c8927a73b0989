//! The render stages and the table of legal transitions between them.

use vstd::prelude::*;

verus! {

/// The pass that a frame is in.
#[derive(Clone, Copy, Debug, PartialEq, Eq, Structural)]
pub enum RenderStage {
    /// No frame is open.
    Stopped,
    /// The geometry pass: meshes are drawn into the G-buffer.
    Deferred,
    /// The lighting pass has begun with the ambient term.
    Ambient,
    /// Lights and the skybox accumulate on top of the ambient term.
    Directional,
    /// The proxy mesh of a light has been drawn.
    LightObject,
    /// The swapchain no longer fits the surface and must be rebuilt.
    NeedsRedraw,
}

/// A request made of the orchestrator.
#[derive(Clone, Copy, Debug, PartialEq, Eq, Structural)]
pub enum Call {
    Start,
    Geometry,
    Ambient,
    Directional,
    PointLight,
    Skybox,
    LightObject,
    Finish,
}

/// What a call amounts to in the stage where it arrives.
#[derive(Clone, Copy, Debug, PartialEq, Eq, Structural)]
pub enum Effect {
    /// Acquire a swapchain image and open a frame on it.
    Acquire,
    /// Record the draws of the call.
    Record,
    /// Close the render pass, submit and present.
    Submit,
    /// Rebuild the swapchain and everything sized to it.
    Rebuild,
    /// Drop the frame: nothing of it reaches the queue.
    Abort,
    /// Nothing to do.
    Idle,
}

/// The legal transitions: `call` may be made in `stage`.
pub open spec fn accepts(stage: RenderStage, call: Call) -> bool {
    match call {
        Call::Start => stage == RenderStage::Stopped || stage == RenderStage::NeedsRedraw,
        Call::Geometry | Call::Ambient => stage == RenderStage::Deferred,
        Call::Directional | Call::PointLight => stage == RenderStage::Ambient || stage
            == RenderStage::Directional,
        Call::Skybox | Call::LightObject => stage == RenderStage::Directional,
        Call::Finish => stage != RenderStage::NeedsRedraw,
    }
}

/// The stage that a legal call leads to.
pub open spec fn target(stage: RenderStage, call: Call) -> RenderStage {
    match call {
        Call::Start => if stage == RenderStage::Stopped {
            RenderStage::Deferred
        } else {
            RenderStage::Stopped
        },
        Call::Geometry => RenderStage::Deferred,
        Call::Ambient => RenderStage::Ambient,
        Call::Directional | Call::PointLight | Call::Skybox => RenderStage::Directional,
        Call::LightObject => RenderStage::LightObject,
        Call::Finish => RenderStage::Stopped,
    }
}

/// The stage after `call` was made in `stage`: a call out of order stops the
/// frame.
pub open spec fn next_stage(stage: RenderStage, call: Call) -> RenderStage {
    if accepts(stage, call) {
        target(stage, call)
    } else {
        RenderStage::Stopped
    }
}

/// What `call` amounts to in `stage`.
pub open spec fn effect_of(stage: RenderStage, call: Call) -> Effect {
    if stage == RenderStage::NeedsRedraw {
        Effect::Rebuild
    } else if !accepts(stage, call) {
        Effect::Abort
    } else {
        match call {
            Call::Start => Effect::Acquire,
            Call::Finish => if stage == RenderStage::Stopped {
                Effect::Idle
            } else {
                Effect::Submit
            },
            _ => Effect::Record,
        }
    }
}

/// Whether a frame is being recorded in `stage`.
pub open spec fn recording(stage: RenderStage) -> bool {
    stage == RenderStage::Deferred || stage == RenderStage::Ambient || stage
        == RenderStage::Directional || stage == RenderStage::LightObject
}

/// One step of the stage machine: the stage that follows and what is to be
/// done.
pub fn transition(stage: RenderStage, call: Call) -> (step: (RenderStage, Effect))
    ensures
        step.0 == next_stage(stage, call),
        step.1 == effect_of(stage, call),
{
    match stage {
        RenderStage::NeedsRedraw => (RenderStage::Stopped, Effect::Rebuild),
        RenderStage::Stopped => match call {
            Call::Start => (RenderStage::Deferred, Effect::Acquire),
            Call::Finish => (RenderStage::Stopped, Effect::Idle),
            _ => (RenderStage::Stopped, Effect::Abort),
        },
        RenderStage::Deferred => match call {
            Call::Geometry => (RenderStage::Deferred, Effect::Record),
            Call::Ambient => (RenderStage::Ambient, Effect::Record),
            Call::Finish => (RenderStage::Stopped, Effect::Submit),
            _ => (RenderStage::Stopped, Effect::Abort),
        },
        RenderStage::Ambient => match call {
            Call::Directional | Call::PointLight => (RenderStage::Directional, Effect::Record),
            Call::Finish => (RenderStage::Stopped, Effect::Submit),
            _ => (RenderStage::Stopped, Effect::Abort),
        },
        RenderStage::Directional => match call {
            Call::Directional | Call::PointLight | Call::Skybox => (
                RenderStage::Directional,
                Effect::Record,
            ),
            Call::LightObject => (RenderStage::LightObject, Effect::Record),
            Call::Finish => (RenderStage::Stopped, Effect::Submit),
            _ => (RenderStage::Stopped, Effect::Abort),
        },
        RenderStage::LightObject => match call {
            Call::Finish => (RenderStage::Stopped, Effect::Submit),
            _ => (RenderStage::Stopped, Effect::Abort),
        },
    }
}

} // verus!
