//! What passes between the orchestrator and the backend in the course of a
//! frame: the outcomes that the backend reports, the actions that it is
//! asked for, and the token that chains one frame's end to the next
//! submission.

use vstd::prelude::*;
use crate::command::Command;
use crate::gbuffer::Extent;
use crate::shading::Mat4;

verus! {

/// What became of the request for the next swapchain image.
#[derive(Clone, Copy, Debug, PartialEq, Eq, Structural)]
pub enum AcquireOutcome {
    /// An image was handed out. A suboptimal one can be shown but no longer
    /// fits the surface.
    Acquired { image_index: u32, suboptimal: bool },
    /// The swapchain is out of date.
    OutOfDate,
}

/// What became of a submission.
#[derive(Clone, Copy, Debug, PartialEq, Eq, Structural)]
pub enum PresentOutcome {
    /// The commands were queued and the image handed to the presentation
    /// engine.
    Presented,
    /// The swapchain is out of date.
    OutOfDate,
    /// The submission failed for another reason.
    Failed,
}

/// What became of the attempt to recreate the swapchain.
#[derive(Clone, Copy, Debug, PartialEq, Eq)]
pub enum SwapchainOutcome {
    /// There is a new swapchain of `image_count` images of `image_extent`,
    /// and `projection` is the projection for its aspect ratio.
    Recreated { image_extent: Extent, image_count: u32, projection: Mat4 },
    /// The platform refused the extent asked for, as it does for a window
    /// without area.
    Rejected,
}

/// A completion that a later submission can wait for.
pub enum Completion {
    /// Nothing to wait for: a stand-in that has completed.
    Now,
    /// The end of the submission with this serial number.
    FrameEnd(nat),
}

/// The handle to a completion. It cannot be copied: whoever holds it is the
/// one who may wait for it.
pub struct FrameFuture {
    pending: bool,
    serial: Ghost<nat>,
}

impl View for FrameFuture {
    type V = Completion;

    closed spec fn view(&self) -> Completion {
        if self.pending {
            Completion::FrameEnd(self.serial@)
        } else {
            Completion::Now
        }
    }
}

impl FrameFuture {
    /// A stand-in that has completed.
    pub fn now() -> (future: FrameFuture)
        ensures
            future@ == Completion::Now,
    {
        FrameFuture { pending: false, serial: Ghost(0) }
    }

    /// The end of the submission with serial number `serial`.
    pub(crate) fn frame_end(serial: Ghost<nat>) -> (future: FrameFuture)
        ensures
            future@ == Completion::FrameEnd(serial@),
    {
        FrameFuture { pending: true, serial }
    }

    /// Whether this is the end of a submission, and not a stand-in.
    pub fn is_frame_end(&self) -> (b: bool)
        ensures
            b == (self@ is FrameEnd),
    {
        self.pending
    }
}

/// A frame ready for the queue.
pub struct Submission {
    /// The swapchain image that the frame was drawn for and that is to be
    /// presented.
    pub image_index: u32,
    /// All the commands of the frame, in the order of their recording.
    pub commands: Vec<Command>,
    /// The last of `commands` is a change of subpass that has yet to be
    /// recorded: the frame was finished in the geometry subpass.
    pub advance_subpass: bool,
    /// The end of the frame before. The submission waits for it, and for the
    /// acquisition of its image.
    pub wait_for: FrameFuture,
    /// The serial number of the submission, counted from one.
    pub serial: Ghost<nat>,
}

/// A submission as a value.
pub struct SubmissionView {
    pub image_index: u32,
    pub commands: Seq<Command>,
    pub advance_subpass: bool,
    pub wait_for: Completion,
    pub serial: nat,
}

impl View for Submission {
    type V = SubmissionView;

    open spec fn view(&self) -> SubmissionView {
        SubmissionView {
            image_index: self.image_index,
            commands: self.commands@,
            advance_subpass: self.advance_subpass,
            wait_for: self.wait_for@,
            serial: self.serial@,
        }
    }
}

/// What the backend is to do after a call.
pub enum Action {
    /// Nothing.
    Idle,
    /// Ask for the next swapchain image and report what came of it.
    Acquire,
    /// Open a command buffer and begin the render pass on the framebuffer of
    /// this image.
    Begin { image_index: u32 },
    /// Record these commands.
    Record(Vec<Command>),
    /// End the render pass, submit after the two completions, present, and
    /// report what came of it.
    Submit(Submission),
    /// Drop the command buffer under construction and the image acquired
    /// for it, recreate the swapchain for the size of the window, and report
    /// what came of it.
    Recreate,
    /// Drop the command buffer under construction and the image acquired
    /// for it.
    Abort,
}

/// An action as a value.
pub enum ActionView {
    Idle,
    Acquire,
    Begin { image_index: u32 },
    Record(Seq<Command>),
    Submit(SubmissionView),
    Recreate,
    Abort,
}

impl View for Action {
    type V = ActionView;

    open spec fn view(&self) -> ActionView {
        match self {
            Action::Idle => ActionView::Idle,
            Action::Acquire => ActionView::Acquire,
            Action::Begin { image_index } => ActionView::Begin { image_index: *image_index },
            Action::Record(commands) => ActionView::Record(commands@),
            Action::Submit(submission) => ActionView::Submit(submission@),
            Action::Recreate => ActionView::Recreate,
            Action::Abort => ActionView::Abort,
        }
    }
}

} // verus!
