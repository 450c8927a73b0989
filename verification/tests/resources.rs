use vulkano_engine::assets::{AssetHandle, AssetManager, LoadRequest, MeshDrawInfo};
use vulkano_engine::command::Command;
use vulkano_engine::device::{
    first_usable_family, rank_of, select_physical_device, PhysicalDevice, PhysicalDeviceType,
    QueueFamily,
};
use vulkano_engine::gbuffer::{
    window_size_dependent_setup, Attachment, AttachmentKind, Extent, Format, Framebuffer,
    ImageUsage, Viewport,
};
use vulkano_engine::mesh::{
    DescriptorSet, GpuImage, IndexBuffer, Material, Mesh, Model, NormalVertex, SpecularData,
    Texture, VertexBuffer,
};
use vulkano_engine::pipeline::{
    attachment_ops, clear_value, geometry_subpass, lighting_subpass, AttachmentOps, Blend,
    ClearValue, CullMode, DepthTest, PipelineKind, VertexInput,
};
use vulkano_engine::player::Player;
use vulkano_engine::renderer::Renderer;
use vulkano_engine::shading::{DirectionalLight, Mat4, PointLight, VP};
use vulkano_engine::skybox::{SkyboxError, SkyboxImages};

fn bits(x: f32) -> u32 {
    x.to_bits()
}

fn renderer() -> Renderer {
    Renderer::new(Extent { width: 4, height: 4 }, 1, Mat4::identity())
}

fn sampled() -> ImageUsage {
    ImageUsage {
        color_attachment: false,
        depth_stencil_attachment: false,
        input_attachment: false,
        transient_attachment: false,
        transfer_dst: true,
        sampled: true,
    }
}

fn vertex() -> NormalVertex {
    NormalVertex { position: [0; 3], normal: [0; 3], color: [0; 3], uv: [0; 2] }
}

fn face(width: u32, height: u32, fill: u8) -> Texture {
    Texture { width, height, pixels: vec![fill; (4 * width * height) as usize] }
}

fn png(width: u32, height: u32, pixels: Vec<u8>) -> Vec<u8> {
    let image = image::RgbaImage::from_raw(width, height, pixels).unwrap();
    let mut encoded = std::io::Cursor::new(Vec::new());
    image.write_to(&mut encoded, image::ImageFormat::Png).unwrap();
    encoded.into_inner()
}

#[test]
fn words_of_the_shading_constants() {
    assert_eq!(vulkano_engine::shading::ZERO, bits(0.0));
    assert_eq!(vulkano_engine::shading::ONE, bits(1.0));
    assert_eq!(vulkano_engine::shading::ONE_TENTH, bits(0.1));
    assert_eq!(vulkano_engine::shading::ONE_HALF, bits(0.5));
    assert_eq!(vulkano_engine::shading::THIRTY_TWO, bits(32.0));
    assert_eq!(vulkano_engine::shading::HALF_PI, bits(std::f32::consts::FRAC_PI_2));
    assert_eq!(vulkano_engine::shading::ONE_HUNDREDTH, bits(0.01));
    assert_eq!(vulkano_engine::shading::ONE_THOUSAND, bits(1000.0));
}

#[test]
fn projection_parameters() {
    let p = vulkano_engine::shading::perspective_for(1600, 900);
    assert_eq!((p.width, p.height), (1600, 900));
    assert_eq!(f32::from_bits(p.fovy), std::f32::consts::FRAC_PI_2);
    assert_eq!(f32::from_bits(p.near), 0.01);
    assert_eq!(f32::from_bits(p.far), 1000.0);
    let minimized = vulkano_engine::shading::perspective_for(0, 0);
    assert_eq!((minimized.width, minimized.height, minimized.fovy), (0, 0, p.fovy));
}

#[test]
fn clear_values() {
    let black = ClearValue::Color([bits(0.0), bits(0.0), bits(0.0), bits(1.0)]);
    for kind in [
        AttachmentKind::FinalColor,
        AttachmentKind::Color,
        AttachmentKind::Normals,
        AttachmentKind::FragLocation,
    ] {
        assert_eq!(clear_value(kind), black);
    }
    assert_eq!(clear_value(AttachmentKind::Specular), ClearValue::Pair([bits(0.0), bits(0.0)]));
    assert_eq!(clear_value(AttachmentKind::Depth), ClearValue::Depth(bits(1.0)));
}

#[test]
fn identity_matrix() {
    let m = Mat4::identity();
    for col in 0..4 {
        for row in 0..4 {
            let expected = if col == row { 1.0 } else { 0.0 };
            assert_eq!(f32::from_bits(m.cols[4 * col + row]), expected);
        }
    }
    let vp = VP::new();
    assert_eq!(vp.view, m);
    assert_eq!(vp.projection, m);
    assert_eq!(vp.camera_pos, [bits(0.0); 3]);
}

#[test]
fn light_position_is_the_first_three_components() {
    let light = DirectionalLight::new(
        [bits(1.0), bits(2.0), bits(3.0), bits(4.0)],
        [bits(0.1), bits(0.2), bits(0.3)],
    );
    assert_eq!(light.get_position(), [bits(1.0), bits(2.0), bits(3.0)]);
    assert_eq!(light.uniform().position, [bits(1.0), bits(2.0), bits(3.0), bits(4.0)]);
    assert_eq!(light.uniform().color, [bits(0.1), bits(0.2), bits(0.3)]);
    assert_eq!(DirectionalLight::default().get_position(), [0, 0, 0]);
}

#[test]
fn point_light_uniform() {
    let light = PointLight::new([1, 2, 3, 4], [5, 6, 7], 8, 9);
    let data = light.uniform();
    assert_eq!((data.position, data.color, data.intensity, data.radius), ([1, 2, 3, 4], [5, 6, 7], 8, 9));
    let dark = PointLight::default().uniform();
    assert_eq!((dark.position, dark.color, dark.intensity, dark.radius), ([0; 4], [0; 3], 0, 0));
}

#[test]
fn attachment_set_is_built_whole() {
    let extent = Extent { width: 1280, height: 720 };
    let mut viewport = Viewport { extent: Extent { width: 1600, height: 900 } };
    let gbuffer = window_size_dependent_setup(extent, 3, &mut viewport);
    assert_eq!(viewport.extent, extent);
    let on = |color: bool| ImageUsage {
        color_attachment: color,
        depth_stencil_attachment: !color,
        input_attachment: color,
        transient_attachment: true,
        transfer_dst: false,
        sampled: false,
    };
    assert_eq!(
        gbuffer.color,
        Attachment {
            kind: AttachmentKind::Color,
            format: Format::A2B10G10R10UnormPack32,
            extent,
            usage: on(true),
        }
    );
    assert_eq!(
        gbuffer.normal,
        Attachment {
            kind: AttachmentKind::Normals,
            format: Format::R16G16B16A16Sfloat,
            extent,
            usage: on(true),
        }
    );
    assert_eq!(
        gbuffer.frag_location,
        Attachment {
            kind: AttachmentKind::FragLocation,
            format: Format::R16G16B16A16Sfloat,
            extent,
            usage: on(true),
        }
    );
    assert_eq!(
        gbuffer.specular,
        Attachment {
            kind: AttachmentKind::Specular,
            format: Format::R16G16Sfloat,
            extent,
            usage: on(true),
        }
    );
    assert_eq!(
        gbuffer.depth,
        Attachment { kind: AttachmentKind::Depth, format: Format::D16Unorm, extent, usage: on(false) }
    );
    assert_eq!(
        gbuffer.framebuffers,
        vec![
            Framebuffer { image_index: 0, extent },
            Framebuffer { image_index: 1, extent },
            Framebuffer { image_index: 2, extent },
        ]
    );
    assert_eq!(gbuffer.image_count(), 3);
}

#[test]
fn attachment_set_for_no_image() {
    let mut viewport = Viewport { extent: Extent { width: 1, height: 1 } };
    let gbuffer = window_size_dependent_setup(Extent { width: 0, height: 0 }, 0, &mut viewport);
    assert!(gbuffer.framebuffers.is_empty());
    assert_eq!(gbuffer.depth.extent, Extent { width: 0, height: 0 });
}

#[test]
fn framebuffer_binding_order() {
    assert_eq!(
        Framebuffer::attachments(),
        [
            AttachmentKind::FinalColor,
            AttachmentKind::Color,
            AttachmentKind::Normals,
            AttachmentKind::FragLocation,
            AttachmentKind::Specular,
            AttachmentKind::Depth,
        ]
    );
}

#[test]
fn subpasses_of_the_render_pass() {
    let gbuffer = vec![
        AttachmentKind::Color,
        AttachmentKind::Normals,
        AttachmentKind::FragLocation,
        AttachmentKind::Specular,
    ];
    let geometry = geometry_subpass();
    assert_eq!(geometry.color, gbuffer);
    assert_eq!(geometry.depth_stencil, AttachmentKind::Depth);
    assert!(geometry.input.is_empty());
    let lighting = lighting_subpass();
    assert_eq!(lighting.color, vec![AttachmentKind::FinalColor]);
    assert_eq!(lighting.depth_stencil, AttachmentKind::Depth);
    assert_eq!(lighting.input, gbuffer);
    assert_eq!(
        attachment_ops(AttachmentKind::FinalColor),
        AttachmentOps { clear: true, store: true }
    );
    for kind in [
        AttachmentKind::Color,
        AttachmentKind::Normals,
        AttachmentKind::FragLocation,
        AttachmentKind::Specular,
        AttachmentKind::Depth,
    ] {
        assert_eq!(attachment_ops(kind), AttachmentOps { clear: true, store: false });
    }
}

#[test]
fn pipeline_set() {
    let deferred = PipelineKind::Deferred.config();
    assert_eq!(deferred.subpass, 0);
    assert_eq!(deferred.color_attachments, 4);
    assert_eq!(deferred.vertex_input, VertexInput::Normal);
    assert_eq!(deferred.cull_mode, CullMode::Back);
    assert_eq!(deferred.depth, DepthTest::Less);
    assert_eq!(deferred.blend, Blend::Replace);
    for kind in [PipelineKind::Ambient, PipelineKind::Directional, PipelineKind::PointLight] {
        let config = kind.config();
        assert_eq!(config.subpass, 1);
        assert_eq!(config.color_attachments, 1);
        assert_eq!(config.vertex_input, VertexInput::Dummy);
        assert_eq!(config.cull_mode, CullMode::Neither);
        assert_eq!(config.depth, DepthTest::Off);
        assert_eq!(config.blend, Blend::Additive);
    }
    let skybox = PipelineKind::Skybox.config();
    assert_eq!((skybox.subpass, skybox.depth), (1, DepthTest::LessOrEqualReadOnly));
    assert_eq!((skybox.cull_mode, skybox.blend), (CullMode::Neither, Blend::Replace));
    let proxy = PipelineKind::LightObject.config();
    assert_eq!((proxy.subpass, proxy.vertex_input), (1, VertexInput::Colored));
    assert_eq!((proxy.cull_mode, proxy.depth), (CullMode::Back, DepthTest::Less));
}

#[test]
fn inputs_of_each_pipeline() {
    assert_eq!(PipelineKind::Ambient.inputs(), vec![AttachmentKind::Color]);
    let all = vec![
        AttachmentKind::Color,
        AttachmentKind::Normals,
        AttachmentKind::FragLocation,
        AttachmentKind::Specular,
    ];
    assert_eq!(PipelineKind::Directional.inputs(), all);
    assert_eq!(PipelineKind::PointLight.inputs(), all);
    assert_eq!(PipelineKind::Deferred.inputs(), vec![]);
    assert_eq!(PipelineKind::Skybox.inputs(), vec![]);
    assert_eq!(PipelineKind::LightObject.inputs(), vec![]);
}

#[test]
fn pipeline_of_each_command() {
    let light = DirectionalLight::default().uniform();
    let camera = vulkano_engine::shading::CameraData { position: [0; 3] };
    assert_eq!(Command::NextSubpass.pipeline(), None);
    let cubemap = GpuImage {
        format: Format::R8G8B8A8Srgb,
        width: 1,
        height: 1,
        array_layers: 6,
        usage: sampled(),
        cube_compatible: true,
    };
    assert_eq!(Command::DrawSkybox { cubemap }.pipeline(), Some(PipelineKind::Skybox));
    assert_eq!(
        Command::DrawDirectional { light, camera }.pipeline(),
        Some(PipelineKind::Directional)
    );
    assert_eq!(Command::DrawLightObject { light }.pipeline(), Some(PipelineKind::LightObject));
    assert_eq!(
        Command::DrawPointLight { light: PointLight::default().uniform(), camera }.pipeline(),
        Some(PipelineKind::PointLight)
    );
}

#[test]
fn upload_of_a_flat_coloured_mesh() {
    let renderer = renderer();
    let material = Material { base_color_texture: None, base_color_factor: [255, 128, 0, 255] };
    let mut mesh = Mesh::new(vec![vertex(); 4], vec![0, 1, 2, 2, 3, 0], material.clone());
    assert!(!mesh.uploaded());
    assert!(mesh.is_drawable());
    let upload = renderer.upload_mesh_to_gpu(&mut mesh);
    let image = GpuImage {
        format: Format::R8G8B8A8Srgb,
        width: 1,
        height: 1,
        array_layers: 1,
        usage: sampled(),
        cube_compatible: false,
    };
    assert_eq!(upload.pixels, vec![255, 128, 0, 255]);
    assert_eq!(upload.image, image);
    assert!(mesh.uploaded());
    assert_eq!(mesh.texture, Some(image));
    assert_eq!(mesh.vertex_buffer, Some(VertexBuffer { len: 4 }));
    assert_eq!(mesh.index_buffer, Some(IndexBuffer { len: 6 }));
    assert_eq!(
        mesh.persist_desc_set,
        Some(DescriptorSet {
            specular: SpecularData { intensity: bits(0.5), shininess: bits(32.0) },
            texture: image,
        })
    );
    assert_eq!(mesh.vertices, vec![vertex(); 4]);
    assert_eq!(mesh.indices, vec![0, 1, 2, 2, 3, 0]);
    assert_eq!(mesh.material, material);
}

#[test]
fn upload_of_a_textured_mesh() {
    let renderer = renderer();
    let pixels: Vec<u8> = (0..24).collect();
    let material = Material {
        base_color_texture: Some(Texture { width: 3, height: 2, pixels: pixels.clone() }),
        base_color_factor: [1, 2, 3, 4],
    };
    let mut mesh = Mesh::new(vec![vertex(); 3], vec![0, 1, 2], material);
    let upload = renderer.upload_mesh_to_gpu(&mut mesh);
    assert_eq!(upload.pixels, pixels);
    assert_eq!((upload.image.width, upload.image.height, upload.image.array_layers), (3, 2, 1));
    assert_eq!(upload.image.format, Format::R8G8B8A8Srgb);
    assert!(!upload.image.cube_compatible);
    assert!(mesh.uploaded());
}

#[test]
fn a_mesh_is_uploaded_only_with_all_three() {
    let renderer = renderer();
    let material = Material { base_color_texture: None, base_color_factor: [0; 4] };
    let mut mesh = Mesh::new(vec![vertex(); 3], vec![0, 1, 2], material);
    renderer.upload_mesh_to_gpu(&mut mesh);
    for missing in 0..3 {
        let mut partly = mesh.clone();
        match missing {
            0 => partly.vertex_buffer = None,
            1 => partly.index_buffer = None,
            _ => partly.persist_desc_set = None,
        }
        assert!(!partly.uploaded());
    }
    let mut untextured = mesh.clone();
    untextured.texture = None;
    assert!(untextured.uploaded());
}

#[test]
fn skybox_of_six_fitting_faces() {
    let faces = [face(2, 2, 1), face(2, 2, 2), face(2, 2, 3), face(2, 2, 4), face(2, 2, 5), face(2, 2, 6)];
    let images = SkyboxImages::from_faces(&faces).unwrap();
    assert_eq!(images.extent, Extent { width: 2, height: 2 });
    for i in 0..6 {
        assert_eq!(images.faces[i], vec![i as u8 + 1; 16]);
    }
    assert!(images.is_wf());

    let upload = renderer().upload_skybox(images);
    let mut expected = Vec::new();
    for i in 0..6u8 {
        expected.extend(vec![i + 1; 16]);
    }
    assert_eq!(upload.pixels, expected);
    assert_eq!(upload.pixels.len(), 6 * 4 * 2 * 2);
    assert_eq!(
        upload.skybox.cubemap,
        GpuImage {
            format: Format::R8G8B8A8Srgb,
            width: 2,
            height: 2,
            array_layers: 6,
            usage: sampled(),
            cube_compatible: true,
        }
    );
}

#[test]
fn skybox_face_of_another_size() {
    let faces = [face(2, 2, 0), face(2, 2, 0), face(2, 2, 0), face(4, 1, 0), face(2, 2, 0), face(1, 1, 0)];
    assert_eq!(SkyboxImages::from_faces(&faces), Err(SkyboxError::Mismatch { face: 3 }));
}

#[test]
fn skybox_face_with_too_few_bytes() {
    let mut faces = [face(2, 2, 0), face(2, 2, 0), face(2, 2, 0), face(2, 2, 0), face(2, 2, 0), face(2, 2, 0)];
    faces[5].pixels.pop();
    assert_eq!(SkyboxImages::from_faces(&faces), Err(SkyboxError::Mismatch { face: 5 }));
    faces[0].pixels.push(0);
    assert_eq!(SkyboxImages::from_faces(&faces), Err(SkyboxError::Mismatch { face: 0 }));
}

#[test]
fn skybox_is_wf_checks_every_face() {
    let faces = [face(1, 3, 9), face(1, 3, 9), face(1, 3, 9), face(1, 3, 9), face(1, 3, 9), face(1, 3, 9)];
    let mut images = SkyboxImages::from_faces(&faces).unwrap();
    assert!(images.is_wf());
    images.faces[4].push(0);
    assert!(!images.is_wf());
    images.faces[4].pop();
    images.extent.width = 2;
    assert!(!images.is_wf());
}

const FACES: [&str; 6] = [
    "sky/right.png",
    "sky/left.png",
    "sky/up.png",
    "sky/down.png",
    "sky/front.png",
    "sky/back.png",
];

fn encoded(width: u32, height: u32, pixels: Vec<u8>, format: image::ImageFormat) -> Vec<u8> {
    let image = image::RgbaImage::from_raw(width, height, pixels).unwrap();
    let mut encoded = std::io::Cursor::new(Vec::new());
    image.write_to(&mut encoded, format).unwrap();
    encoded.into_inner()
}

#[test]
fn skybox_from_encoded_images() {
    let mut files: Vec<Vec<u8>> = Vec::new();
    let mut raw: Vec<Vec<u8>> = Vec::new();
    for i in 0..6u8 {
        let pixels: Vec<u8> = (0..2 * 3 * 4).map(|k| k as u8 * 7 + i).collect();
        files.push(png(2, 3, pixels.clone()));
        raw.push(pixels);
    }
    let files: [Vec<u8>; 6] = files.try_into().unwrap();
    assert_ne!(files[0], raw[0]);
    let images = SkyboxImages::new(FACES, &files).unwrap();
    assert_eq!(images.extent, Extent { width: 2, height: 3 });
    for i in 0..6 {
        assert_eq!(images.faces[i], raw[i]);
    }
    assert!(images.is_wf());
}

#[test]
fn skybox_from_an_image_without_alpha() {
    let rgb = image::RgbImage::from_raw(1, 1, vec![10, 20, 30]).unwrap();
    let mut encoded = std::io::Cursor::new(Vec::new());
    rgb.write_to(&mut encoded, image::ImageFormat::Png).unwrap();
    let one = encoded.into_inner();
    let all = [one.clone(), one.clone(), one.clone(), one.clone(), one.clone(), one];
    let images = SkyboxImages::new(FACES, &all).unwrap();
    assert_eq!(images.faces[0], vec![10, 20, 30, 255]);
}

#[test]
fn skybox_faces_in_the_formats_of_their_names() {
    let pixels: Vec<u8> = (0..4 * 4).map(|k| k as u8 * 3).collect();
    let tga = encoded(2, 2, pixels.clone(), image::ImageFormat::Tga);
    let bmp = encoded(2, 2, pixels.clone(), image::ImageFormat::Bmp);
    let names = ["a.tga", "b.TGA", "c.bmp", "d.png", "e.tga", "f.bmp"];
    let files = [tga.clone(), tga.clone(), bmp.clone(), png(2, 2, pixels.clone()), tga, bmp];
    let images = SkyboxImages::new(names, &files).unwrap();
    assert_eq!(images.extent, Extent { width: 2, height: 2 });
    for i in 0..6 {
        assert_eq!(images.faces[i], pixels);
    }
}

#[test]
fn skybox_face_under_the_name_of_another_format() {
    let good = png(1, 1, vec![1, 2, 3, 4]);
    let files = [good.clone(), good.clone(), good.clone(), good.clone(), good.clone(), good];
    let mut names = FACES;
    names[4] = "sky/front.tga.jpg";
    assert_eq!(SkyboxImages::new(names, &files), Err(SkyboxError::Undecodable { face: 4 }));
}

#[test]
fn skybox_face_whose_name_tells_no_format() {
    let good = png(1, 1, vec![1, 2, 3, 4]);
    let files = [good.clone(), good.clone(), good.clone(), good.clone(), good.clone(), good];
    let mut names = FACES;
    names[1] = "sky/left";
    assert_eq!(SkyboxImages::new(names, &files), Err(SkyboxError::Undecodable { face: 1 }));
    names[1] = "sky/left.png";
    names[0] = "sky/right.pixels";
    assert_eq!(SkyboxImages::new(names, &files), Err(SkyboxError::Undecodable { face: 0 }));
}

#[test]
fn skybox_from_bytes_that_are_no_image() {
    let good = png(1, 1, vec![1, 2, 3, 4]);
    let bad = vec![0u8, 1, 2, 3];
    let files = [good.clone(), good.clone(), bad.clone(), good.clone(), bad, good];
    assert_eq!(SkyboxImages::new(FACES, &files), Err(SkyboxError::Undecodable { face: 2 }));
}

#[test]
fn skybox_from_encoded_images_of_two_sizes() {
    let small = png(1, 1, vec![1, 2, 3, 4]);
    let large = png(2, 1, vec![1, 2, 3, 4, 5, 6, 7, 8]);
    let files = [small.clone(), large, small.clone(), small.clone(), small.clone(), small];
    assert_eq!(SkyboxImages::new(FACES, &files), Err(SkyboxError::Mismatch { face: 1 }));
}

#[test]
fn an_undecodable_face_is_named_before_a_misfit() {
    let small = png(1, 1, vec![1, 2, 3, 4]);
    let large = png(2, 1, vec![1, 2, 3, 4, 5, 6, 7, 8]);
    let files = [small.clone(), large, small.clone(), vec![], small.clone(), small];
    assert_eq!(SkyboxImages::new(FACES, &files), Err(SkyboxError::Undecodable { face: 3 }));
}

fn device(device_type: PhysicalDeviceType, swapchain: bool, families: &[(bool, bool)]) -> PhysicalDevice {
    PhysicalDevice {
        device_type,
        supports_swapchain: swapchain,
        queue_families: families
            .iter()
            .map(|&(graphics, presents)| QueueFamily { graphics, presents })
            .collect(),
    }
}

#[test]
fn ranks_of_the_device_kinds() {
    assert_eq!(rank_of(PhysicalDeviceType::DiscreteGpu), 0);
    assert_eq!(rank_of(PhysicalDeviceType::IntegratedGpu), 1);
    assert_eq!(rank_of(PhysicalDeviceType::VirtualGpu), 2);
    assert_eq!(rank_of(PhysicalDeviceType::Cpu), 3);
    assert_eq!(rank_of(PhysicalDeviceType::Other), 4);
    assert_eq!(rank_of(PhysicalDeviceType::Unknown), 5);
}

#[test]
fn the_best_suitable_device_is_chosen() {
    let devices = vec![
        device(PhysicalDeviceType::Cpu, true, &[(true, true)]),
        device(PhysicalDeviceType::DiscreteGpu, false, &[(true, true)]),
        device(PhysicalDeviceType::IntegratedGpu, true, &[(false, true), (true, false), (true, true)]),
        device(PhysicalDeviceType::DiscreteGpu, true, &[(true, false)]),
        device(PhysicalDeviceType::IntegratedGpu, true, &[(true, true)]),
    ];
    assert_eq!(select_physical_device(&devices), Some((2, 2)));
}

#[test]
fn of_equal_devices_the_first_is_chosen() {
    let devices = vec![
        device(PhysicalDeviceType::Other, true, &[(true, true)]),
        device(PhysicalDeviceType::DiscreteGpu, true, &[(false, false), (true, true), (true, true)]),
        device(PhysicalDeviceType::DiscreteGpu, true, &[(true, true)]),
    ];
    assert_eq!(select_physical_device(&devices), Some((1, 1)));
}

#[test]
fn no_suitable_device() {
    assert_eq!(select_physical_device(&vec![]), None);
    let devices = vec![
        device(PhysicalDeviceType::DiscreteGpu, false, &[(true, true)]),
        device(PhysicalDeviceType::DiscreteGpu, true, &[(true, false), (false, true)]),
        device(PhysicalDeviceType::Cpu, true, &[]),
    ];
    assert_eq!(select_physical_device(&devices), None);
}

#[test]
fn first_usable_queue_family() {
    let families = device(PhysicalDeviceType::Other, true, &[(false, true), (true, true), (true, true)]);
    assert_eq!(first_usable_family(&families.queue_families), Some(1));
    assert_eq!(first_usable_family(&vec![]), None);
}

#[test]
fn a_model_is_loaded_once() {
    let mut assets = AssetManager::new();
    let material = Material { base_color_texture: None, base_color_factor: [0; 4] };
    let handle = match assets.load_model("data/models/suzanne.glb") {
        LoadRequest::Load(handle) => handle,
        LoadRequest::Ready(_) => panic!("an empty cache holds no model"),
    };
    assert_eq!(handle, AssetHandle { id: String::from("data/models/suzanne.glb") });
    assert_eq!(assets.get_model(&handle), None);

    let first = vec![Mesh::new(vec![vertex(); 3], vec![0, 1, 2], material.clone())];
    assets.store_model(&handle, first.clone());
    assert_eq!(assets.get_model(&handle), Some(&Model { meshes: first.clone() }));
    assert_eq!(
        assets.load_model("data/models/suzanne.glb"),
        LoadRequest::Ready(handle.clone())
    );

    assets.store_model(&handle, vec![]);
    assert_eq!(assets.get_model(&handle), Some(&Model { meshes: first }));

    let other = AssetHandle { id: String::from("data/models/platform.glb") };
    assert_eq!(assets.load_model("data/models/platform.glb"), LoadRequest::Load(other.clone()));
    assets.store_model(&other, vec![]);
    assert_eq!(assets.get_model(&other), Some(&Model { meshes: vec![] }));
    assert_eq!(assets.get_model(&AssetHandle { id: String::from("") }), None);
}

#[test]
fn a_new_cache_has_no_unified_geometry() {
    let assets = AssetManager::new();
    let geometry = assets.get_unified_geometry();
    assert_eq!(geometry.vertex_buffer, None);
    assert_eq!(geometry.index_buffer, None);
    assert_eq!(geometry.mesh_draws, Vec::<MeshDrawInfo>::new());
}

#[test]
fn player_marker() {
    assert_eq!(Player::new(), Player {});
}
