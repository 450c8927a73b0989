//! What holds of the orchestrator whatever it is asked, in whatever order.
//!
//! A session is a renderer together with the completion that its caller
//! keeps between frames. The laws speak of single events and of whole
//! sequences of them.

use vstd::prelude::*;
use crate::command::{complete_pass, geometry_draws, Command};
use crate::frame::{ActionView, AcquireOutcome, Completion, PresentOutcome, SwapchainOutcome};
use crate::gbuffer::{gbuffer_for, Extent};
use crate::mesh::Mesh;
use crate::model::{
    lemma_acquired_wf, lemma_ambient_wf, lemma_closed_commands_complete, lemma_directional_wf,
    lemma_finish_wf, lemma_geometry_wf, lemma_light_object_wf, lemma_pointlight_wf,
    lemma_presented_wf, lemma_recreate_wf, lemma_set_ambient_wf, lemma_set_view_wf,
    lemma_skybox_wf, lemma_start_wf, FrameView, RendererView,
};
use crate::shading::{DirectionalLight, Mat4, PointLight, PushConstants, VpData};
use crate::skybox::Skybox;
use crate::stage::{accepts, recording, Call, RenderStage};

verus! {

/// Anything that can happen to a renderer: a call of the application, or a
/// report of the backend.
pub enum Event {
    Start,
    Acquired(AcquireOutcome),
    Geometry(Seq<Mesh>, PushConstants),
    Ambient,
    Directional(DirectionalLight),
    PointLight(PointLight),
    Skybox(Skybox),
    LightObject(DirectionalLight),
    Finish,
    Presented(PresentOutcome),
    RecreateSwapchain(SwapchainOutcome),
    SetView(Mat4, [u32; 3]),
    SetAmbient([u32; 3], u32),
}

/// A renderer and the completion kept for its next submission.
pub struct Session {
    pub renderer: RendererView,
    pub previous_frame_end: Completion,
}

/// The call of the stage table that an event makes, if it makes one.
pub open spec fn call_of(event: Event) -> Option<Call> {
    match event {
        Event::Start => Some(Call::Start),
        Event::Geometry(..) => Some(Call::Geometry),
        Event::Ambient => Some(Call::Ambient),
        Event::Directional(_) => Some(Call::Directional),
        Event::PointLight(_) => Some(Call::PointLight),
        Event::Skybox(_) => Some(Call::Skybox),
        Event::LightObject(_) => Some(Call::LightObject),
        Event::Finish => Some(Call::Finish),
        _ => None,
    }
}

/// The session after one event, and the action that answers it. An event
/// that has no answer counts as answered by `Idle`.
pub open spec fn step(session: Session, event: Event) -> (Session, ActionView) {
    let r = session.renderer;
    let kept = session.previous_frame_end;
    match event {
        Event::Finish => (
            Session { renderer: r.finish(kept).0, previous_frame_end: r.finish(kept).2 },
            r.finish(kept).1,
        ),
        Event::Presented(outcome) => (
            Session {
                renderer: r.presented(outcome, kept).0,
                previous_frame_end: r.presented(outcome, kept).1,
            },
            ActionView::Idle,
        ),
        _ => (Session { renderer: answered(r, event).0, previous_frame_end: kept }, answered(r, event).1),
    }
}

/// The commands that a recording call asks to record.
pub open spec fn commands_of(r: RendererView, event: Event) -> Seq<Command> {
    match event {
        Event::Geometry(meshes, push_constants) => geometry_draws(meshes, push_constants),
        Event::Ambient => seq![Command::NextSubpass, Command::DrawAmbient { ambient: r.ambient }],
        Event::Directional(light) => seq![
            Command::DrawDirectional { light: light.spec_uniform(), camera: r.camera() },
        ],
        Event::PointLight(light) => seq![
            Command::DrawPointLight { light: light.spec_uniform(), camera: r.camera() },
        ],
        Event::Skybox(skybox) => seq![Command::DrawSkybox { cubemap: skybox.cubemap }],
        Event::LightObject(light) => seq![Command::DrawLightObject { light: light.spec_uniform() }],
        _ => Seq::empty(),
    }
}

/// Whether an event is one of the six recording calls.
pub open spec fn records(event: Event) -> bool {
    call_of(event) matches Some(call) && call != Call::Start && call != Call::Finish
}

/// What an event that leaves the kept completion alone does to the renderer,
/// and the action that answers it.
#[verifier::opaque]
pub open spec fn answered(r: RendererView, event: Event) -> (RendererView, ActionView) {
    if records(event) {
        r.record(call_of(event)->0, commands_of(r, event))
    } else {
        match event {
            Event::Start => r.start(),
            Event::Acquired(outcome) => r.acquired(outcome),
            Event::RecreateSwapchain(outcome) => (r.recreate_swapchain(outcome), ActionView::Idle),
            Event::SetView(view, camera_pos) => (r.set_view(view, camera_pos), ActionView::Idle),
            Event::SetAmbient(color, intensity) => (
                r.set_ambient(color, intensity),
                ActionView::Idle,
            ),
            _ => (r, ActionView::Idle),
        }
    }
}

/// One step of a session is the entry point of the renderer that bears the
/// name of the event: the renderer after it and the answer are those of the
/// entry point, and the kept completion is touched by `finish` and
/// `presented` alone.
pub proof fn law_step_follows_the_entry_points(session: Session, event: Event)
    ensures
        ({
            let r = session.renderer;
            let kept = session.previous_frame_end;
            let after = step(session, event).0;
            let answer = step(session, event).1;
            match event {
                Event::Start => (after.renderer, answer) == r.start() && after.previous_frame_end
                    == kept,
                Event::Acquired(outcome) => (after.renderer, answer) == r.acquired(outcome)
                    && after.previous_frame_end == kept,
                Event::Geometry(meshes, push_constants) => (after.renderer, answer) == r.geometry(
                    meshes,
                    push_constants,
                ) && after.previous_frame_end == kept,
                Event::Ambient => (after.renderer, answer) == r.ambient()
                    && after.previous_frame_end == kept,
                Event::Directional(light) => (after.renderer, answer) == r.directional(light)
                    && after.previous_frame_end == kept,
                Event::PointLight(light) => (after.renderer, answer) == r.pointlight(light)
                    && after.previous_frame_end == kept,
                Event::Skybox(skybox) => (after.renderer, answer) == r.skybox(skybox)
                    && after.previous_frame_end == kept,
                Event::LightObject(light) => (after.renderer, answer) == r.light_object(light)
                    && after.previous_frame_end == kept,
                Event::Finish => (after.renderer, answer, after.previous_frame_end) == r.finish(
                    kept,
                ),
                Event::Presented(outcome) => (after.renderer, after.previous_frame_end)
                    == r.presented(outcome, kept) && answer is Idle,
                Event::RecreateSwapchain(outcome) => after.renderer == r.recreate_swapchain(outcome)
                    && answer is Idle && after.previous_frame_end == kept,
                Event::SetView(view, camera_pos) => after.renderer == r.set_view(view, camera_pos)
                    && answer is Idle && after.previous_frame_end == kept,
                Event::SetAmbient(color, intensity) => after.renderer == r.set_ambient(
                    color,
                    intensity,
                ) && answer is Idle && after.previous_frame_end == kept,
            }
        }),
{
    reveal(answered);
}

/// The session after a sequence of events.
#[verifier::opaque]
pub open spec fn run(session: Session, events: Seq<Event>) -> Session
    decreases events.len(),
{
    if events.len() == 0 {
        session
    } else {
        step(run(session, events.drop_last()), events.last()).0
    }
}

/// The answer to the event at position `i` of a sequence.
pub open spec fn answer(session: Session, events: Seq<Event>, i: int) -> ActionView {
    step(run(session, events.take(i)), events[i]).1
}

/// After no event the session is as it was, and after a sequence of events it
/// is one step on from where the sequence without its last event left it.
pub proof fn lemma_run(session: Session, events: Seq<Event>)
    ensures
        events.len() == 0 ==> run(session, events) == session,
        events.len() > 0 ==> run(session, events) == step(
            run(session, events.drop_last()),
            events.last(),
        ).0,
{
    reveal_with_fuel(run, 2);
}

/// Every event of the sequence is a recording call, made in a stage that
/// accepts it.
pub open spec fn in_order(session: Session, events: Seq<Event>) -> bool {
    forall|i: int|
        0 <= i < events.len() ==> {
            &&& call_of(#[trigger] events[i]) matches Some(call)
            &&& call != Call::Start
            &&& call != Call::Finish
            &&& accepts(run(session, events.take(i)).renderer.stage, call)
        }
}

/// No event of the sequence ends a frame or reports on a submission.
pub open spec fn between_frames(events: Seq<Event>) -> bool {
    forall|i: int|
        0 <= i < events.len() ==> !(#[trigger] events[i] is Finish) && !(events[i] is Presented)
}

/// One event leaves an orderly renderer orderly.
pub proof fn lemma_step_wf(session: Session, event: Event)
    requires
        session.renderer.wf(),
    ensures
        step(session, event).0.renderer.wf(),
{
    reveal(answered);
    let r = session.renderer;
    let kept = session.previous_frame_end;
    match event {
        Event::Start => lemma_start_wf(r),
        Event::Acquired(outcome) => lemma_acquired_wf(r, outcome),
        Event::Geometry(meshes, push_constants) => lemma_geometry_wf(r, meshes, push_constants),
        Event::Ambient => lemma_ambient_wf(r),
        Event::Directional(light) => lemma_directional_wf(r, light),
        Event::PointLight(light) => lemma_pointlight_wf(r, light),
        Event::Skybox(skybox) => lemma_skybox_wf(r, skybox),
        Event::LightObject(light) => lemma_light_object_wf(r, light),
        Event::Finish => lemma_finish_wf(r, kept),
        Event::Presented(outcome) => lemma_presented_wf(r, outcome, kept),
        Event::RecreateSwapchain(outcome) => lemma_recreate_wf(r, outcome),
        Event::SetView(view, camera_pos) => lemma_set_view_wf(r, view, camera_pos),
        Event::SetAmbient(color, intensity) => lemma_set_ambient_wf(r, color, intensity),
    }
}

/// Whatever happens to a renderer, in whatever order, it stays orderly:
/// frame resources exist only while a frame is recorded, the commands of
/// the open frame are where its stage says, the uniform buffer of the
/// geometry pass mirrors the camera, and the attachment set is whole.
pub proof fn law_order_is_kept(session: Session, events: Seq<Event>)
    requires
        session.renderer.wf(),
    ensures
        run(session, events).renderer.wf(),
    decreases events.len(),
{
    lemma_run(session, events);
    if events.len() > 0 {
        law_order_is_kept(session, events.drop_last());
        lemma_step_wf(run(session, events.drop_last()), events.last());
    }
}

/// A call made in a stage that does not accept it costs the frame: the
/// renderer comes to rest, the frame resources are gone, nothing is
/// submitted, and the completion kept for the next submission is untouched.
pub proof fn law_call_out_of_order_drops_frame(session: Session, event: Event)
    requires
        session.renderer.wf(),
        call_of(event) matches Some(call) && !accepts(session.renderer.stage, call),
    ensures
        step(session, event).0.renderer.stage == RenderStage::Stopped,
        step(session, event).0.renderer.frame is None,
        step(session, event).0.renderer.submitted == session.renderer.submitted,
        step(session, event).0.previous_frame_end == session.previous_frame_end,
        step(session, event).1 is Abort || step(session, event).1 is Recreate,
{
    reveal(answered);
}

/// A recording call finds no frame open: whatever the stage, the renderer
/// comes to rest and nothing is recorded or submitted.
pub proof fn law_recording_needs_a_frame(session: Session, event: Event)
    requires
        session.renderer.wf(),
        session.renderer.frame is None,
        call_of(event) matches Some(call) && call != Call::Start && call != Call::Finish,
    ensures
        step(session, event).0.renderer.stage == RenderStage::Stopped,
        step(session, event).0.renderer.frame is None,
        step(session, event).0.renderer.submitted == session.renderer.submitted,
        step(session, event).1 is Abort || step(session, event).1 is Recreate,
{
    reveal(answered);
}

/// The commands of a frame are what was recorded for it, and nothing else.
/// A frame opens empty, where the answer is `Begin`; it grows by the
/// commands of an answer `Record`, and by those alone; after any other
/// answer it is as it was, or gone.
pub proof fn law_commands_come_from_recording(session: Session, event: Event)
    requires
        session.renderer.wf(),
    ensures
        ({
            let before = session.renderer.frame;
            let after = step(session, event).0.renderer.frame;
            match step(session, event).1 {
                ActionView::Begin { image_index } => before is None && after == Some(
                    FrameView { image_index, commands: Seq::empty() },
                ),
                ActionView::Record(commands) => before is Some && after == Some(
                    FrameView {
                        image_index: before->0.image_index,
                        commands: before->0.commands + commands,
                    },
                ),
                _ => after is None || after == before,
            }
        }),
{
    let r = session.renderer;
    if records(event) {
        reveal(answered);
        lemma_recording_appends(r, call_of(event)->0, commands_of(r, event));
    } else if !(event is Finish) && !(event is Presented) {
        lemma_other_events_keep_or_drop(r, event);
    }
}

/// An event that is no recording call, no `finish` and no report on a
/// submission opens a frame, empty, where its answer is `Begin`; otherwise
/// it leaves the frame as it was or drops it.
proof fn lemma_other_events_keep_or_drop(r: RendererView, event: Event)
    requires
        !records(event),
        !(event is Finish),
        !(event is Presented),
    ensures
        !(answered(r, event).1 is Record),
        answered(r, event).1 matches ActionView::Begin { image_index } ==> r.frame is None
            && answered(r, event).0.frame == Some(
            FrameView { image_index, commands: Seq::empty() },
        ),
        !(answered(r, event).1 is Begin) ==> answered(r, event).0.frame is None || answered(
            r,
            event,
        ).0.frame == r.frame,
{
    reveal(answered);
}

/// A recording call appends its commands to the open frame, or drops the
/// frame.
proof fn lemma_recording_appends(r: RendererView, call: Call, commands: Seq<Command>)
    ensures
        r.record(call, commands).1 matches ActionView::Record(recorded) ==> {
            &&& recorded == commands
            &&& r.frame is Some
            &&& r.record(call, commands).0.frame == Some(
                FrameView {
                    image_index: r.frame->0.image_index,
                    commands: r.frame->0.commands + commands,
                },
            )
        },
        !(r.record(call, commands).1 is Record) ==> r.record(call, commands).0.frame is None && (
        r.record(call, commands).1 is Abort || r.record(call, commands).1 is Recreate),
{
}

/// At rest every call but `start` is answered without a submission and
/// leaves the renderer at rest: once a frame is dropped, nothing of it can
/// be submitted by the calls that were meant to follow.
pub proof fn law_rest_is_kept(session: Session, event: Event)
    requires
        session.renderer.wf(),
        session.renderer.stage == RenderStage::Stopped,
        call_of(event) matches Some(call) && call != Call::Start,
    ensures
        step(session, event).0.renderer.stage == RenderStage::Stopped,
        step(session, event).0.renderer.frame is None,
        !(step(session, event).1 is Submit),
{
    reveal(answered);
    reveal(RendererView::wf);
}

/// A submission answers a `finish` with a frame open, and hands over the
/// commands of that frame, closed.
pub proof fn lemma_submission_is_whole(session: Session, event: Event)
    requires
        session.renderer.wf(),
        step(session, event).1 is Submit,
    ensures
        event is Finish,
        session.renderer.frame is Some,
        step(session, event).1->Submit_0.commands == session.renderer.closed_commands(),
        step(session, event).1->Submit_0.image_index == session.renderer.frame->0.image_index,
        complete_pass(step(session, event).1->Submit_0.commands),
{
    reveal(answered);
    if session.renderer.frame is Some {
        lemma_closed_commands_complete(session.renderer);
    }
}

/// Whatever the events, a submission answers a `finish` with a frame open,
/// and hands over the commands of that frame and no others. They form a
/// whole render pass: no command stands out of place, and the pass has
/// reached its second subpass.
pub proof fn law_submissions_are_whole(session: Session, events: Seq<Event>, i: int)
    requires
        session.renderer.wf(),
        0 <= i < events.len(),
        answer(session, events, i) is Submit,
    ensures
        events[i] is Finish,
        run(session, events.take(i)).renderer.frame is Some,
        answer(session, events, i)->Submit_0.commands == run(
            session,
            events.take(i),
        ).renderer.closed_commands(),
        answer(session, events, i)->Submit_0.image_index == run(
            session,
            events.take(i),
        ).renderer.frame->0.image_index,
        complete_pass(answer(session, events, i)->Submit_0.commands),
{
    let before = run(session, events.take(i));
    law_order_is_kept(session, events.take(i));
    lemma_submission_is_whole(before, events[i]);
}

/// The count of submissions goes up by one with each submission and with
/// nothing else, and each submission carries the new count as its serial
/// number: no two submissions share one.
pub proof fn law_submissions_are_counted(session: Session, event: Event)
    requires
        session.renderer.wf(),
    ensures
        step(session, event).1 matches ActionView::Submit(submission) ==> {
            &&& step(session, event).0.renderer.submitted == session.renderer.submitted + 1
            &&& submission.serial == session.renderer.submitted + 1
        },
        !(step(session, event).1 is Submit) ==> step(session, event).0.renderer.submitted
            == session.renderer.submitted,
{
    reveal(answered);
}

/// A recording call made in order on an open frame is recorded: the frame
/// stays open on its image, and nothing else changes hands.
pub proof fn lemma_call_in_order(session: Session, event: Event)
    requires
        session.renderer.wf(),
        session.renderer.frame is Some,
        call_of(event) matches Some(call) && call != Call::Start && call != Call::Finish && accepts(
            session.renderer.stage,
            call,
        ),
    ensures
        step(session, event).0.renderer.wf(),
        step(session, event).0.renderer.frame is Some,
        step(session, event).0.renderer.frame->0.image_index
            == session.renderer.frame->0.image_index,
        step(session, event).0.renderer.submitted == session.renderer.submitted,
        step(session, event).0.renderer.in_flight == session.renderer.in_flight,
        step(session, event).0.previous_frame_end == session.previous_frame_end,
        step(session, event).1 is Record,
{
    reveal(answered);
    lemma_step_wf(session, event);
}

/// Recording calls made in order keep the frame open and submit nothing.
pub proof fn lemma_in_order_records(session: Session, events: Seq<Event>)
    requires
        session.renderer.wf(),
        session.renderer.frame is Some,
        in_order(session, events),
    ensures
        run(session, events).renderer.wf(),
        run(session, events).renderer.frame is Some,
        run(session, events).renderer.frame->0.image_index
            == session.renderer.frame->0.image_index,
        run(session, events).renderer.submitted == session.renderer.submitted,
        run(session, events).renderer.in_flight == session.renderer.in_flight,
        run(session, events).previous_frame_end == session.previous_frame_end,
        forall|i: int| 0 <= i < events.len() ==> #[trigger] answer(session, events, i) is Record,
    decreases events.len(),
{
    lemma_run(session, events);
    if events.len() > 0 {
        let shorter = events.drop_last();
        let n = events.len() - 1;
        assert forall|i: int| 0 <= i < shorter.len() implies {
            &&& call_of(#[trigger] shorter[i]) matches Some(call)
            &&& call != Call::Start
            &&& call != Call::Finish
            &&& accepts(run(session, shorter.take(i)).renderer.stage, call)
        } by {
            assert(shorter.take(i) =~= events.take(i));
        }
        lemma_in_order_records(session, shorter);
        let before = run(session, shorter);
        lemma_call_in_order(before, events[n]);
        assert forall|i: int| 0 <= i < events.len() implies #[trigger] answer(session, events, i)
            is Record by {
            if i < n {
                assert(shorter.take(i) =~= events.take(i));
                assert(answer(session, shorter, i) is Record);
            }
        }
    }
}

/// A frame that is started at rest, opens on a usable image and is recorded
/// in order is submitted by `finish`, once: no call before `finish` submits,
/// `finish` hands over the one submission, with the image of the frame, and
/// a `finish` repeated has nothing left to submit.
pub proof fn law_one_submission_per_frame(
    session: Session,
    outcome: AcquireOutcome,
    calls: Seq<Event>,
)
    requires
        session.renderer.wf(),
        session.renderer.stage == RenderStage::Stopped,
        session.renderer.usable(outcome),
        in_order(step(step(session, Event::Start).0, Event::Acquired(outcome)).0, calls),
    ensures
        ({
            let started = step(session, Event::Start);
            let opened = step(started.0, Event::Acquired(outcome));
            let recorded = run(opened.0, calls);
            let finished = step(recorded, Event::Finish);
            let again = step(finished.0, Event::Finish);
            &&& started.1 is Acquire
            &&& opened.1 == ActionView::Begin { image_index: outcome->image_index }
            &&& forall|i: int| 0 <= i < calls.len() ==> #[trigger] answer(opened.0, calls, i) is Record
            &&& finished.1 is Submit
            &&& finished.1->Submit_0.image_index == outcome->image_index
            &&& finished.0.renderer.stage == RenderStage::Stopped
            &&& finished.0.renderer.frame is None
            &&& finished.0.renderer.submitted == session.renderer.submitted + 1
            &&& again.1 is Idle
            &&& again.0.renderer.submitted == finished.0.renderer.submitted
        }),
{
    reveal(answered);
    reveal(RendererView::wf);
    let started = step(session, Event::Start);
    let opened = step(started.0, Event::Acquired(outcome));
    lemma_in_order_records(opened.0, calls);
}

/// Events that neither end a frame nor report on a submission leave the
/// kept completion and the count of submissions as they were.
pub proof fn lemma_between_frames(session: Session, events: Seq<Event>)
    requires
        session.renderer.wf(),
        between_frames(events),
    ensures
        run(session, events).renderer.wf(),
        run(session, events).previous_frame_end == session.previous_frame_end,
        run(session, events).renderer.submitted == session.renderer.submitted,
    decreases events.len(),
{
    reveal(answered);
    lemma_run(session, events);
    if events.len() > 0 {
        let shorter = events.drop_last();
        assert(between_frames(shorter));
        lemma_between_frames(session, shorter);
        lemma_step_wf(run(session, shorter), events.last());
    }
}

/// The completion that a submission waits for is the one that was kept, and
/// keeping it ends there: a stand-in takes its place, so that no second
/// submission can wait for the same one.
pub proof fn law_completion_is_handed_over(session: Session)
    requires
        session.renderer.wf(),
        step(session, Event::Finish).1 is Submit,
    ensures
        step(session, Event::Finish).1->Submit_0.wait_for == session.previous_frame_end,
        step(session, Event::Finish).0.previous_frame_end == Completion::Now,
{
    reveal(answered);
}

/// The end of a presented frame is what the next submission waits for.
///
/// Frame N is submitted and reported as presented. Whatever happens then,
/// short of another `finish` or report, the next submission waits for the
/// end of frame N, and is frame N + 1.
pub proof fn law_future_chain(session: Session, events: Seq<Event>)
    requires
        session.renderer.wf(),
        step(session, Event::Finish).1 is Submit,
        between_frames(events),
    ensures
        ({
            let first = step(session, Event::Finish);
            let reported = step(first.0, Event::Presented(PresentOutcome::Presented));
            let later = run(reported.0, events);
            let second = step(later, Event::Finish);
            second.1 is Submit ==> {
                &&& second.1->Submit_0.wait_for == Completion::FrameEnd(
                    first.1->Submit_0.serial,
                )
                &&& second.1->Submit_0.serial == first.1->Submit_0.serial + 1
            }
        }),
{
    let first = step(session, Event::Finish);
    lemma_step_wf(session, Event::Finish);
    let reported = step(first.0, Event::Presented(PresentOutcome::Presented));
    lemma_step_wf(first.0, Event::Presented(PresentOutcome::Presented));
    lemma_between_frames(reported.0, events);
}

/// A submission that fails leaves a stand-in for the next one to wait for,
/// and a report is taken once: with nothing in flight it changes nothing.
pub proof fn law_report_is_taken_once(session: Session, outcome: PresentOutcome, second: PresentOutcome)
    requires
        session.renderer.wf(),
        session.renderer.in_flight,
    ensures
        ({
            let reported = step(session, Event::Presented(outcome)).0;
            &&& outcome != PresentOutcome::Presented ==> reported.previous_frame_end
                == Completion::Now
            &&& outcome == PresentOutcome::Presented ==> reported.previous_frame_end
                == Completion::FrameEnd(session.renderer.submitted)
            &&& (reported.renderer.stage == RenderStage::NeedsRedraw) == (outcome
                == PresentOutcome::OutOfDate || session.renderer.stage
                == RenderStage::NeedsRedraw)
            &&& step(reported, Event::Presented(second)).0 == reported
        }),
{
    reveal(answered);
}

/// After a swapchain was recreated, every attachment and every framebuffer
/// has the new extent, there is a framebuffer for each image, the viewport
/// covers them, and the uniform buffer of the geometry pass holds the new
/// projection beside the view that was there. No frame is open.
pub proof fn law_recreation_is_whole(
    r: RendererView,
    image_extent: Extent,
    image_count: u32,
    projection: Mat4,
)
    requires
        r.wf(),
    ensures
        ({
            let after = r.recreate_swapchain(
                SwapchainOutcome::Recreated { image_extent, image_count, projection },
            );
            &&& after.wf()
            &&& after.stage == RenderStage::Stopped
            &&& after.frame is None
            &&& after.gbuffer == gbuffer_for(image_extent, image_count as nat)
            &&& after.gbuffer.color.extent == image_extent
            &&& after.gbuffer.normal.extent == image_extent
            &&& after.gbuffer.frag_location.extent == image_extent
            &&& after.gbuffer.specular.extent == image_extent
            &&& after.gbuffer.depth.extent == image_extent
            &&& after.gbuffer.framebuffers.len() == image_count
            &&& forall|i: int|
                0 <= i < image_count ==> (#[trigger] after.gbuffer.framebuffers[i]).extent
                    == image_extent
            &&& after.viewport.extent == image_extent
            &&& after.vp.view == r.vp.view
            &&& after.vp.projection == projection
            &&& after.vp_buffer == (VpData { view: r.vp.view, projection })
        }),
{
    lemma_recreate_wf(r, SwapchainOutcome::Recreated { image_extent, image_count, projection });
}

/// A refused recreation alters nothing: stage, frame, attachments,
/// viewport, camera and uniform buffer are all as before the call.
pub proof fn law_refusal_alters_nothing(r: RendererView)
    ensures
        r.recreate_swapchain(SwapchainOutcome::Rejected) == r,
{
}

/// A refused recreation is tried again. The renderer is at rest as before;
/// the next frame asks for an image, the swapchain that was not replaced
/// is reported out of date, and the call after that asks for the rebuild.
pub proof fn law_refusal_is_retried(r: RendererView)
    requires
        r.wf(),
        r.stage == RenderStage::Stopped,
    ensures
        ({
            let refused = r.recreate_swapchain(SwapchainOutcome::Rejected);
            let started = refused.start();
            let reported = started.0.acquired(AcquireOutcome::OutOfDate);
            let again = reported.0.start();
            &&& started.1 is Acquire
            &&& reported.1 is Abort
            &&& reported.0.stage == RenderStage::NeedsRedraw
            &&& again.1 is Recreate
            &&& again.0.stage == RenderStage::Stopped
        }),
{
    reveal(RendererView::wf);
}

/// Where the swapchain is due for rebuilding, every call asks for the
/// rebuild, and none records or submits.
pub proof fn law_rebuild_comes_first(session: Session, event: Event)
    requires
        session.renderer.wf(),
        session.renderer.stage == RenderStage::NeedsRedraw,
        call_of(event) is Some || event is Acquired,
    ensures
        step(session, event).1 is Recreate,
        step(session, event).0.renderer.stage == RenderStage::Stopped,
        step(session, event).0.renderer.frame is None,
{
    reveal(answered);
}

/// The draws of the geometry pass are draws of uploaded meshes, each with
/// the index count of its mesh, in the order of the meshes, and every
/// uploaded mesh has its draw: a mesh that lacks a buffer or its descriptor
/// set is never drawn.
pub proof fn law_geometry_draws_uploaded_meshes(meshes: Seq<Mesh>, push_constants: PushConstants)
    requires
        meshes.len() <= usize::MAX,
    ensures
        geometry_draws(meshes, push_constants).len() <= meshes.len(),
        forall|k: int|
            0 <= k < geometry_draws(meshes, push_constants).len() ==> {
                &&& (#[trigger] geometry_draws(meshes, push_constants)[k]) matches Command::DrawMesh {
                    mesh,
                    index_count,
                    push_constants: pushed,
                }
                &&& mesh < meshes.len()
                &&& meshes[mesh as int].is_uploaded()
                &&& index_count == meshes[mesh as int].index_buffer->0.len
                &&& pushed == push_constants
            },
        forall|j: int, k: int|
            0 <= j < k < geometry_draws(meshes, push_constants).len() ==> (#[trigger] geometry_draws(
                meshes,
                push_constants,
            )[j])->mesh < (#[trigger] geometry_draws(meshes, push_constants)[k])->mesh,
        forall|i: int|
            0 <= i < meshes.len() && (#[trigger] meshes[i]).is_uploaded() ==> exists|k: int|
                0 <= k < geometry_draws(meshes, push_constants).len() && (#[trigger] geometry_draws(
                    meshes,
                    push_constants,
                )[k])->mesh == i,
    decreases meshes.len(),
{
    if meshes.len() > 0 {
        let shorter = meshes.drop_last();
        let before = geometry_draws(shorter, push_constants);
        let all = geometry_draws(meshes, push_constants);
        law_geometry_draws_uploaded_meshes(shorter, push_constants);
        assert forall|k: int| 0 <= k < all.len() implies {
            &&& (#[trigger] all[k]) matches Command::DrawMesh {
                mesh,
                index_count,
                push_constants: pushed,
            }
            &&& mesh < meshes.len()
            &&& meshes[mesh as int].is_uploaded()
            &&& index_count == meshes[mesh as int].index_buffer->0.len
            &&& pushed == push_constants
        } by {
            if k < before.len() {
                assert(all[k] == before[k]);
                assert(shorter[before[k]->mesh as int] == meshes[before[k]->mesh as int]);
            }
        }
        assert forall|j: int, k: int| 0 <= j < k < all.len() implies (#[trigger] all[j])->mesh < (
        #[trigger] all[k])->mesh by {
            assert(all[j] == before[j]);
            if k < before.len() {
                assert(all[k] == before[k]);
            }
        }
        assert forall|i: int| 0 <= i < meshes.len() && (#[trigger] meshes[i]).is_uploaded() implies exists|
            k: int,
        |
            0 <= k < all.len() && (#[trigger] all[k])->mesh == i by {
            if i < shorter.len() {
                assert(shorter[i] == meshes[i]);
                let k = choose|k: int| 0 <= k < before.len() && (#[trigger] before[k])->mesh == i;
                assert(all[k] == before[k]);
            } else {
                assert(all[all.len() - 1]->mesh == i);
            }
        }
    }
}

} // verus!
