use vulkano_engine::command::Command;
use vulkano_engine::frame::{
    Action, AcquireOutcome, FrameFuture, PresentOutcome, Submission, SwapchainOutcome,
};
use vulkano_engine::gbuffer::Extent;
use vulkano_engine::mesh::{Material, Mesh, Model, NormalVertex, Texture};
use vulkano_engine::renderer::Renderer;
use vulkano_engine::shading::{
    AmbientData, CameraData, DirectionalLight, DirectionalLightData, Mat4, PointLight,
    PointLightData, PushConstants,
};
use vulkano_engine::skybox::{Skybox, SkyboxImages};
use vulkano_engine::stage::RenderStage;

fn bits(x: f32) -> u32 {
    x.to_bits()
}

fn extent(width: u32, height: u32) -> Extent {
    Extent { width, height }
}

fn renderer() -> Renderer {
    Renderer::new(extent(1600, 900), 3, Mat4::identity())
}

fn push_constants() -> PushConstants {
    PushConstants { model: Mat4::identity(), normals: Mat4::identity() }
}

fn white_light() -> DirectionalLight {
    DirectionalLight::new(
        [bits(0.0), bits(1.0), bits(0.0), bits(1.0)],
        [bits(1.0), bits(1.0), bits(1.0)],
    )
}

fn vertex(x: f32) -> NormalVertex {
    NormalVertex {
        position: [bits(x), bits(0.0), bits(0.0)],
        normal: [bits(0.0), bits(0.0), bits(1.0)],
        color: [bits(0.5), bits(0.5), bits(0.5)],
        uv: [bits(0.0), bits(0.0)],
    }
}

fn triangle(uploaded_by: Option<&Renderer>) -> Mesh {
    let material = Material { base_color_texture: None, base_color_factor: [10, 20, 30, 255] };
    let mut mesh = Mesh::new(vec![vertex(0.0), vertex(1.0), vertex(2.0)], vec![0, 1, 2], material);
    if let Some(renderer) = uploaded_by {
        renderer.upload_mesh_to_gpu(&mut mesh);
    }
    mesh
}

fn sky() -> Skybox {
    let face = || Texture { width: 2, height: 2, pixels: vec![7; 16] };
    let images = SkyboxImages::from_faces(&[face(), face(), face(), face(), face(), face()]);
    renderer().upload_skybox(images.unwrap()).skybox
}

fn open_frame(renderer: &mut Renderer, image_index: u32) {
    assert!(matches!(renderer.start(), Action::Acquire));
    let action = renderer.acquired(AcquireOutcome::Acquired { image_index, suboptimal: false });
    assert!(matches!(action, Action::Begin { image_index: i } if i == image_index));
}

fn submission(action: Action) -> Submission {
    match action {
        Action::Submit(submission) => submission,
        _ => panic!("no submission"),
    }
}

fn recorded(action: Action) -> Vec<Command> {
    match action {
        Action::Record(commands) => commands,
        _ => panic!("nothing recorded"),
    }
}

#[test]
fn new_renderer_is_at_rest() {
    let renderer = renderer();
    assert_eq!(renderer.stage(), RenderStage::Stopped);
    assert_eq!(renderer.image_index(), None);
    assert_eq!(renderer.recorded(), None);
    assert_eq!(renderer.viewport().extent, extent(1600, 900));
    assert_eq!(renderer.gbuffer().framebuffers.len(), 3);
    assert_eq!(renderer.vp().view, Mat4::identity());
    assert_eq!(renderer.vp().projection, Mat4::identity());
    assert_eq!(renderer.vp().camera_pos, [0, 0, 0]);
    assert_eq!(renderer.vp_data().view, renderer.vp().view);
    assert_eq!(renderer.vp_data().projection, renderer.vp().projection);
    assert_eq!(
        renderer.ambient_data(),
        AmbientData { color: [bits(1.0), bits(1.0), bits(1.0)], intensity: bits(0.1) }
    );
}

#[test]
fn normal_frame() {
    let mut renderer = renderer();
    let mut previous_frame_end = FrameFuture::now();
    let light = white_light();
    let model = Model { meshes: vec![triangle(Some(&renderer))] };

    assert!(matches!(renderer.start(), Action::Acquire));
    assert_eq!(renderer.stage(), RenderStage::Deferred);
    let begin = renderer.acquired(AcquireOutcome::Acquired { image_index: 2, suboptimal: false });
    assert!(matches!(begin, Action::Begin { image_index: 2 }));
    assert_eq!(renderer.image_index(), Some(2));
    assert_eq!(renderer.recorded(), Some(0));

    let draw_mesh = Command::DrawMesh { mesh: 0, index_count: 3, push_constants: push_constants() };
    let next_subpass = Command::NextSubpass;
    let draw_ambient = Command::DrawAmbient { ambient: renderer.ambient_data() };
    let draw_light = Command::DrawDirectional {
        light: DirectionalLightData {
            position: [bits(0.0), bits(1.0), bits(0.0), bits(1.0)],
            color: [bits(1.0), bits(1.0), bits(1.0)],
        },
        camera: CameraData { position: [0, 0, 0] },
    };

    assert_eq!(recorded(renderer.geometry(&model, &push_constants())), vec![draw_mesh]);
    assert_eq!(renderer.stage(), RenderStage::Deferred);
    assert_eq!(recorded(renderer.ambient()), vec![next_subpass, draw_ambient]);
    assert_eq!(renderer.stage(), RenderStage::Ambient);
    assert_eq!(recorded(renderer.directional(&light)), vec![draw_light]);
    assert_eq!(renderer.stage(), RenderStage::Directional);
    assert_eq!(renderer.recorded(), Some(4));

    let submitted = submission(renderer.finish(&mut previous_frame_end));
    assert_eq!(submitted.commands, vec![draw_mesh, next_subpass, draw_ambient, draw_light]);
    assert_eq!(submitted.image_index, 2);
    assert!(!submitted.advance_subpass);
    assert!(!submitted.wait_for.is_frame_end());
    assert_eq!(renderer.stage(), RenderStage::Stopped);
    assert_eq!(renderer.recorded(), None);
    assert_eq!(renderer.image_index(), None);

    let geometry_draws =
        submitted.commands.iter().filter(|c| matches!(c, Command::DrawMesh { .. })).count();
    let subpass_changes =
        submitted.commands.iter().filter(|c| matches!(c, Command::NextSubpass)).count();
    let ambient_draws =
        submitted.commands.iter().filter(|c| matches!(c, Command::DrawAmbient { .. })).count();
    let directional_draws =
        submitted.commands.iter().filter(|c| matches!(c, Command::DrawDirectional { .. })).count();
    assert_eq!((geometry_draws, subpass_changes, ambient_draws, directional_draws), (1, 1, 1, 1));

    assert!(matches!(renderer.finish(&mut previous_frame_end), Action::Idle));
    assert_eq!(renderer.stage(), RenderStage::Stopped);
}

#[test]
fn resize_mid_frame() {
    let mut renderer = renderer();
    let mut previous_frame_end = FrameFuture::now();
    open_frame(&mut renderer, 0);
    renderer.ambient();
    renderer.directional(&white_light());
    assert!(matches!(renderer.finish(&mut previous_frame_end), Action::Submit(_)));

    renderer.presented(PresentOutcome::OutOfDate, &mut previous_frame_end);
    assert_eq!(renderer.stage(), RenderStage::NeedsRedraw);
    assert!(!previous_frame_end.is_frame_end());
    assert_eq!(renderer.gbuffer().depth.extent, extent(1600, 900));

    assert!(matches!(renderer.start(), Action::Recreate));
    assert_eq!(renderer.stage(), RenderStage::Stopped);
    assert_eq!(renderer.recorded(), None);

    let projection = Mat4 { cols: [bits(2.0); 16] };
    renderer.recreate_swapchain(SwapchainOutcome::Recreated {
        image_extent: extent(800, 600),
        image_count: 2,
        projection,
    });
    assert_eq!(renderer.stage(), RenderStage::Stopped);
    let gbuffer = renderer.gbuffer();
    assert_eq!(gbuffer.color.extent, extent(800, 600));
    assert_eq!(gbuffer.normal.extent, extent(800, 600));
    assert_eq!(gbuffer.frag_location.extent, extent(800, 600));
    assert_eq!(gbuffer.specular.extent, extent(800, 600));
    assert_eq!(gbuffer.depth.extent, extent(800, 600));
    assert_eq!(gbuffer.framebuffers.len(), 2);
    assert!(gbuffer.framebuffers.iter().all(|f| f.extent == extent(800, 600)));
    assert_eq!(renderer.viewport().extent, extent(800, 600));
    assert_eq!(renderer.vp_data().projection, projection);
    assert_eq!(renderer.vp_data().view, Mat4::identity());

    assert!(matches!(renderer.finish(&mut previous_frame_end), Action::Idle));
    assert!(matches!(renderer.start(), Action::Acquire));
    assert_eq!(renderer.stage(), RenderStage::Deferred);
}

#[test]
fn out_of_order_call() {
    let mut renderer = renderer();
    let mut previous_frame_end = FrameFuture::now();
    open_frame(&mut renderer, 1);
    assert_eq!(renderer.stage(), RenderStage::Deferred);

    assert!(matches!(renderer.directional(&white_light()), Action::Abort));
    assert_eq!(renderer.stage(), RenderStage::Stopped);
    assert_eq!(renderer.recorded(), None);

    assert!(matches!(renderer.ambient(), Action::Abort));
    assert!(matches!(renderer.finish(&mut previous_frame_end), Action::Idle));
    assert_eq!(renderer.stage(), RenderStage::Stopped);
    assert!(!previous_frame_end.is_frame_end());
}

#[test]
fn every_call_out_of_order_stops_the_frame() {
    let light = white_light();
    let point = PointLight::new([0; 4], [0; 3], bits(2.0), bits(5.0));
    let model = Model { meshes: vec![] };

    // In the geometry stage only geometry, ambient and finish are in order.
    for wrong in 0..5 {
        let mut renderer = renderer();
        open_frame(&mut renderer, 0);
        let action = match wrong {
            0 => renderer.start(),
            1 => renderer.directional(&light),
            2 => renderer.pointlight(&point),
            3 => renderer.skybox(&sky()),
            _ => renderer.light_object(&light),
        };
        assert!(matches!(action, Action::Abort));
        assert_eq!(renderer.stage(), RenderStage::Stopped);
        assert_eq!(renderer.recorded(), None);
    }
    // After the ambient draw only lights and finish are in order.
    for wrong in 0..5 {
        let mut renderer = renderer();
        open_frame(&mut renderer, 0);
        renderer.ambient();
        let action = match wrong {
            0 => renderer.start(),
            1 => renderer.geometry(&model, &push_constants()),
            2 => renderer.ambient(),
            3 => renderer.skybox(&sky()),
            _ => renderer.light_object(&light),
        };
        assert!(matches!(action, Action::Abort));
        assert_eq!(renderer.stage(), RenderStage::Stopped);
        assert_eq!(renderer.recorded(), None);
    }
    // After a light, the geometry pass and the ambient draw are over.
    for wrong in 0..3 {
        let mut renderer = renderer();
        open_frame(&mut renderer, 0);
        renderer.ambient();
        renderer.pointlight(&point);
        let action = match wrong {
            0 => renderer.start(),
            1 => renderer.geometry(&model, &push_constants()),
            _ => renderer.ambient(),
        };
        assert!(matches!(action, Action::Abort));
        assert_eq!(renderer.stage(), RenderStage::Stopped);
    }
    // After the proxy mesh only finish is in order.
    for wrong in 0..7 {
        let mut renderer = renderer();
        open_frame(&mut renderer, 0);
        renderer.ambient();
        renderer.directional(&light);
        renderer.light_object(&light);
        assert_eq!(renderer.stage(), RenderStage::LightObject);
        let action = match wrong {
            0 => renderer.start(),
            1 => renderer.geometry(&model, &push_constants()),
            2 => renderer.ambient(),
            3 => renderer.directional(&light),
            4 => renderer.pointlight(&point),
            5 => renderer.skybox(&sky()),
            _ => renderer.light_object(&light),
        };
        assert!(matches!(action, Action::Abort));
        assert_eq!(renderer.stage(), RenderStage::Stopped);
    }
    // At rest nothing but start is answered with work.
    for wrong in 0..6 {
        let mut renderer = renderer();
        let action = match wrong {
            0 => renderer.geometry(&model, &push_constants()),
            1 => renderer.ambient(),
            2 => renderer.directional(&light),
            3 => renderer.pointlight(&point),
            4 => renderer.skybox(&sky()),
            _ => renderer.light_object(&light),
        };
        assert!(matches!(action, Action::Abort));
        assert_eq!(renderer.stage(), RenderStage::Stopped);
    }
}

#[test]
fn a_dropped_frame_leaves_nothing_for_the_next() {
    let mut renderer = renderer();
    let mut previous_frame_end = FrameFuture::now();
    let model = Model { meshes: vec![triangle(Some(&renderer)), triangle(Some(&renderer))] };
    open_frame(&mut renderer, 0);
    renderer.geometry(&model, &push_constants());
    assert_eq!(renderer.recorded(), Some(2));
    assert!(matches!(renderer.skybox(&sky()), Action::Abort));

    open_frame(&mut renderer, 1);
    assert_eq!(renderer.recorded(), Some(0));
    renderer.ambient();
    let submitted = submission(renderer.finish(&mut previous_frame_end));
    assert_eq!(submitted.commands.len(), 2);
    assert_eq!(submitted.image_index, 1);
}

#[test]
fn lights_and_skybox_accumulate() {
    let mut renderer = renderer();
    let mut previous_frame_end = FrameFuture::now();
    let light = white_light();
    let point = PointLight::new(
        [bits(0.0), bits(1.5), bits(0.0), bits(1.0)],
        [bits(1.0), bits(1.0), bits(1.0)],
        bits(2.0),
        bits(5.0),
    );
    renderer.set_view(&Mat4::identity(), [bits(1.0), bits(2.0), bits(3.0)]);
    open_frame(&mut renderer, 0);
    renderer.ambient();
    let camera = CameraData { position: [bits(1.0), bits(2.0), bits(3.0)] };
    assert_eq!(
        recorded(renderer.pointlight(&point)),
        vec![Command::DrawPointLight {
            light: PointLightData {
                position: [bits(0.0), bits(1.5), bits(0.0), bits(1.0)],
                color: [bits(1.0), bits(1.0), bits(1.0)],
                intensity: bits(2.0),
                radius: bits(5.0),
            },
            camera,
        }]
    );
    assert_eq!(renderer.stage(), RenderStage::Directional);
    renderer.directional(&light);
    assert_eq!(recorded(renderer.skybox(&sky())), vec![Command::DrawSkybox { cubemap: sky().cubemap }]);
    renderer.pointlight(&point);
    assert_eq!(renderer.stage(), RenderStage::Directional);
    assert_eq!(
        recorded(renderer.light_object(&light)),
        vec![Command::DrawLightObject { light: light.uniform() }]
    );
    assert_eq!(renderer.stage(), RenderStage::LightObject);
    let submitted = submission(renderer.finish(&mut previous_frame_end));
    assert_eq!(submitted.commands.len(), 7);
    assert!(matches!(submitted.commands[6], Command::DrawLightObject { .. }));
}

#[test]
fn finish_in_the_geometry_pass_advances_the_subpass() {
    let mut renderer = renderer();
    let mut previous_frame_end = FrameFuture::now();
    let model = Model { meshes: vec![triangle(Some(&renderer))] };
    open_frame(&mut renderer, 0);
    renderer.geometry(&model, &push_constants());
    let submitted = submission(renderer.finish(&mut previous_frame_end));
    assert!(submitted.advance_subpass);
    assert_eq!(submitted.commands.len(), 2);
    assert_eq!(submitted.commands[1], Command::NextSubpass);
    assert_eq!(renderer.stage(), RenderStage::Stopped);
}

#[test]
fn finish_after_the_ambient_draw_submits() {
    let mut renderer = renderer();
    let mut previous_frame_end = FrameFuture::now();
    open_frame(&mut renderer, 0);
    renderer.ambient();
    let submitted = submission(renderer.finish(&mut previous_frame_end));
    assert!(!submitted.advance_subpass);
    assert_eq!(submitted.commands.len(), 2);
}

#[test]
fn finish_without_an_image_submits_nothing() {
    let mut renderer = renderer();
    let mut previous_frame_end = FrameFuture::now();
    assert!(matches!(renderer.start(), Action::Acquire));
    assert!(matches!(renderer.finish(&mut previous_frame_end), Action::Idle));
    assert_eq!(renderer.stage(), RenderStage::Stopped);
}

#[test]
fn recording_without_an_image_drops_the_frame() {
    let mut renderer = renderer();
    assert!(matches!(renderer.start(), Action::Acquire));
    assert!(matches!(renderer.ambient(), Action::Abort));
    assert_eq!(renderer.stage(), RenderStage::Stopped);
}

#[test]
fn acquisition_out_of_date_marks_the_swapchain() {
    let mut renderer = renderer();
    renderer.start();
    assert!(matches!(renderer.acquired(AcquireOutcome::OutOfDate), Action::Abort));
    assert_eq!(renderer.stage(), RenderStage::NeedsRedraw);
    assert_eq!(renderer.recorded(), None);
    let model = Model { meshes: vec![] };
    assert!(matches!(renderer.geometry(&model, &push_constants()), Action::Recreate));
    assert_eq!(renderer.stage(), RenderStage::Stopped);
}

#[test]
fn suboptimal_image_is_treated_as_out_of_date() {
    let mut renderer = renderer();
    renderer.start();
    let action = renderer.acquired(AcquireOutcome::Acquired { image_index: 0, suboptimal: true });
    assert!(matches!(action, Action::Abort));
    assert_eq!(renderer.stage(), RenderStage::NeedsRedraw);
    assert_eq!(renderer.image_index(), None);
}

#[test]
fn image_without_framebuffer_is_not_drawn_on() {
    let mut renderer = renderer();
    renderer.start();
    let action = renderer.acquired(AcquireOutcome::Acquired { image_index: 3, suboptimal: false });
    assert!(matches!(action, Action::Abort));
    assert_eq!(renderer.stage(), RenderStage::NeedsRedraw);
}

#[test]
fn report_of_an_image_that_nothing_waits_for() {
    let mut renderer = renderer();
    let outcome = AcquireOutcome::Acquired { image_index: 0, suboptimal: false };
    assert!(matches!(renderer.acquired(outcome), Action::Abort));
    assert_eq!(renderer.stage(), RenderStage::Stopped);
    open_frame(&mut renderer, 0);
    assert!(matches!(renderer.acquired(outcome), Action::Abort));
    assert_eq!(renderer.stage(), RenderStage::Stopped);
    assert_eq!(renderer.recorded(), None);
}

#[test]
fn every_call_asks_for_the_rebuild_that_is_due() {
    let light = white_light();
    for call in 0..8 {
        let mut renderer = renderer();
        let mut previous_frame_end = FrameFuture::now();
        renderer.start();
        renderer.acquired(AcquireOutcome::OutOfDate);
        assert_eq!(renderer.stage(), RenderStage::NeedsRedraw);
        let action = match call {
            0 => renderer.start(),
            1 => renderer.geometry(&Model { meshes: vec![] }, &push_constants()),
            2 => renderer.ambient(),
            3 => renderer.directional(&light),
            4 => renderer.pointlight(&PointLight::default()),
            5 => renderer.skybox(&sky()),
            6 => renderer.light_object(&light),
            _ => renderer.finish(&mut previous_frame_end),
        };
        assert!(matches!(action, Action::Recreate));
        assert_eq!(renderer.stage(), RenderStage::Stopped);
    }
}

#[test]
fn refused_recreation_alters_nothing() {
    let mut renderer = renderer();
    let view = Mat4 { cols: [bits(3.0); 16] };
    renderer.set_view(&view, [bits(1.0), bits(1.0), bits(1.0)]);
    let gbuffer = renderer.gbuffer().clone();
    let vp = renderer.vp();
    let data = renderer.vp_data();

    renderer.recreate_swapchain(SwapchainOutcome::Rejected);
    assert_eq!(renderer.stage(), RenderStage::Stopped);
    assert_eq!(renderer.recorded(), None);
    assert_eq!(*renderer.gbuffer(), gbuffer);
    assert_eq!(renderer.vp(), vp);
    assert_eq!(renderer.vp_data(), data);
    assert_eq!(renderer.viewport().extent, extent(1600, 900));
    assert_eq!(renderer.ambient_data().intensity, bits(0.1));
}

#[test]
fn refused_recreation_leaves_an_open_frame_open() {
    let mut renderer = renderer();
    let mut previous_frame_end = FrameFuture::now();
    open_frame(&mut renderer, 1);
    renderer.ambient();
    renderer.recreate_swapchain(SwapchainOutcome::Rejected);
    assert_eq!(renderer.stage(), RenderStage::Ambient);
    assert_eq!(renderer.recorded(), Some(2));
    assert_eq!(renderer.image_index(), Some(1));
    assert_eq!(renderer.gbuffer().framebuffers.len(), 3);
    let submitted = submission(renderer.finish(&mut previous_frame_end));
    assert_eq!(submitted.commands.len(), 2);
}

#[test]
fn refused_recreation_keeps_a_rebuild_that_is_due() {
    let mut renderer = renderer();
    renderer.start();
    renderer.acquired(AcquireOutcome::OutOfDate);
    renderer.recreate_swapchain(SwapchainOutcome::Rejected);
    assert_eq!(renderer.stage(), RenderStage::NeedsRedraw);
    assert!(matches!(renderer.start(), Action::Recreate));
}

#[test]
fn refused_recreation_is_tried_again() {
    let mut renderer = renderer();
    renderer.recreate_swapchain(SwapchainOutcome::Rejected);
    assert!(matches!(renderer.start(), Action::Acquire));
    assert!(matches!(renderer.acquired(AcquireOutcome::OutOfDate), Action::Abort));
    assert_eq!(renderer.stage(), RenderStage::NeedsRedraw);
    assert!(matches!(renderer.start(), Action::Recreate));
    assert_eq!(renderer.stage(), RenderStage::Stopped);
    renderer.recreate_swapchain(SwapchainOutcome::Recreated {
        image_extent: extent(320, 200),
        image_count: 2,
        projection: Mat4::identity(),
    });
    assert_eq!(renderer.gbuffer().depth.extent, extent(320, 200));
    assert!(matches!(renderer.start(), Action::Acquire));
}

#[test]
fn recreation_drops_the_open_frame() {
    let mut renderer = renderer();
    let mut previous_frame_end = FrameFuture::now();
    open_frame(&mut renderer, 0);
    renderer.ambient();
    renderer.recreate_swapchain(SwapchainOutcome::Recreated {
        image_extent: extent(640, 480),
        image_count: 4,
        projection: Mat4::identity(),
    });
    assert_eq!(renderer.stage(), RenderStage::Stopped);
    assert_eq!(renderer.recorded(), None);
    assert!(matches!(renderer.finish(&mut previous_frame_end), Action::Idle));
    assert_eq!(renderer.gbuffer().framebuffers.len(), 4);
}

#[test]
fn the_end_of_a_frame_is_what_the_next_waits_for() {
    let mut renderer = renderer();
    let mut previous_frame_end = FrameFuture::now();

    open_frame(&mut renderer, 0);
    renderer.ambient();
    let first = submission(renderer.finish(&mut previous_frame_end));
    assert!(!first.wait_for.is_frame_end());
    assert!(!previous_frame_end.is_frame_end());
    renderer.presented(PresentOutcome::Presented, &mut previous_frame_end);
    assert!(previous_frame_end.is_frame_end());

    open_frame(&mut renderer, 1);
    renderer.ambient();
    let second = submission(renderer.finish(&mut previous_frame_end));
    assert!(second.wait_for.is_frame_end());
    assert!(!previous_frame_end.is_frame_end());
}

#[test]
fn a_failed_submission_leaves_a_stand_in() {
    let mut renderer = renderer();
    let mut previous_frame_end = FrameFuture::now();
    open_frame(&mut renderer, 0);
    renderer.ambient();
    renderer.finish(&mut previous_frame_end);
    renderer.presented(PresentOutcome::Presented, &mut previous_frame_end);

    open_frame(&mut renderer, 1);
    renderer.ambient();
    renderer.finish(&mut previous_frame_end);
    renderer.presented(PresentOutcome::Failed, &mut previous_frame_end);
    assert!(!previous_frame_end.is_frame_end());
    assert_eq!(renderer.stage(), RenderStage::Stopped);

    open_frame(&mut renderer, 2);
    renderer.ambient();
    let third = submission(renderer.finish(&mut previous_frame_end));
    assert!(!third.wait_for.is_frame_end());
}

#[test]
fn a_report_is_taken_once() {
    let mut renderer = renderer();
    let mut previous_frame_end = FrameFuture::now();
    renderer.presented(PresentOutcome::OutOfDate, &mut previous_frame_end);
    assert_eq!(renderer.stage(), RenderStage::Stopped);
    renderer.presented(PresentOutcome::Presented, &mut previous_frame_end);
    assert!(!previous_frame_end.is_frame_end());

    open_frame(&mut renderer, 0);
    renderer.ambient();
    renderer.finish(&mut previous_frame_end);
    renderer.presented(PresentOutcome::Failed, &mut previous_frame_end);
    renderer.presented(PresentOutcome::Presented, &mut previous_frame_end);
    assert!(!previous_frame_end.is_frame_end());
    renderer.presented(PresentOutcome::OutOfDate, &mut previous_frame_end);
    assert_eq!(renderer.stage(), RenderStage::Stopped);
}

#[test]
fn set_view_is_mirrored_in_the_uniform_buffer() {
    let mut renderer = renderer();
    let view = Mat4 { cols: [bits(0.25); 16] };
    let data = renderer.set_view(&view, [bits(4.0), bits(5.0), bits(6.0)]);
    assert_eq!(data.view, view);
    assert_eq!(data.projection, Mat4::identity());
    assert_eq!(renderer.vp().view, view);
    assert_eq!(renderer.vp().camera_pos, [bits(4.0), bits(5.0), bits(6.0)]);
    assert_eq!(renderer.vp_data(), data);
    assert_eq!(renderer.stage(), RenderStage::Stopped);
}

#[test]
fn set_ambient_changes_the_ambient_draw() {
    let mut renderer = renderer();
    let data = renderer.set_ambient([bits(0.2), bits(0.3), bits(0.4)], bits(0.7));
    assert_eq!(data, AmbientData { color: [bits(0.2), bits(0.3), bits(0.4)], intensity: bits(0.7) });
    open_frame(&mut renderer, 0);
    assert_eq!(
        recorded(renderer.ambient()),
        vec![Command::NextSubpass, Command::DrawAmbient { ambient: data }]
    );
}

#[test]
fn geometry_passes_over_a_mesh_that_is_not_uploaded() {
    let mut renderer = renderer();
    let model = Model {
        meshes: vec![triangle(None), triangle(Some(&renderer)), triangle(None), {
            let mut partly = triangle(Some(&renderer));
            partly.persist_desc_set = None;
            partly
        }, triangle(Some(&renderer))],
    };
    open_frame(&mut renderer, 0);
    let draws = recorded(renderer.geometry(&model, &push_constants()));
    assert_eq!(
        draws,
        vec![
            Command::DrawMesh { mesh: 1, index_count: 3, push_constants: push_constants() },
            Command::DrawMesh { mesh: 4, index_count: 3, push_constants: push_constants() },
        ]
    );
    assert_eq!(renderer.stage(), RenderStage::Deferred);
    assert_eq!(renderer.recorded(), Some(2));
}

#[test]
fn geometry_may_be_called_any_number_of_times() {
    let mut renderer = renderer();
    let model = Model { meshes: vec![triangle(Some(&renderer))] };
    open_frame(&mut renderer, 0);
    for n in 1..=5 {
        renderer.geometry(&model, &push_constants());
        assert_eq!(renderer.stage(), RenderStage::Deferred);
        assert_eq!(renderer.recorded(), Some(n));
    }
    let empty = Model { meshes: vec![] };
    assert_eq!(recorded(renderer.geometry(&empty, &push_constants())), vec![]);
}
