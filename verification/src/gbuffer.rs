//! The attachments that are sized to the swapchain: the G-buffer images and
//! one framebuffer per swapchain image.
//!
//! A set is only ever built whole, for one extent. Nothing resizes a single
//! attachment, so a set that mixes two extents cannot come about.

use vstd::prelude::*;

verus! {

/// The size of an image in pixels.
#[derive(Clone, Copy, Debug, PartialEq, Eq, Structural)]
pub struct Extent {
    pub width: u32,
    pub height: u32,
}

/// The pixel formats that the renderer uses.
#[derive(Clone, Copy, Debug, PartialEq, Eq, Structural)]
pub enum Format {
    /// Whatever format the surface presents in.
    Swapchain,
    A2B10G10R10UnormPack32,
    R16G16B16A16Sfloat,
    R16G16Sfloat,
    D16Unorm,
    R8G8B8A8Srgb,
}

/// What an image may be used for.
#[derive(Clone, Copy, Debug, PartialEq, Eq, Structural)]
pub struct ImageUsage {
    pub color_attachment: bool,
    pub depth_stencil_attachment: bool,
    pub input_attachment: bool,
    pub transient_attachment: bool,
    pub transfer_dst: bool,
    pub sampled: bool,
}

/// The attachments of the render pass, in the order in which a framebuffer
/// binds them.
#[derive(Clone, Copy, Debug, PartialEq, Eq, Structural)]
pub enum AttachmentKind {
    /// The swapchain image that is presented.
    FinalColor,
    Color,
    Normals,
    FragLocation,
    Specular,
    Depth,
}

/// One off-screen image of the G-buffer.
#[derive(Clone, Copy, Debug, PartialEq, Eq, Structural)]
pub struct Attachment {
    pub kind: AttachmentKind,
    pub format: Format,
    pub extent: Extent,
    pub usage: ImageUsage,
}

/// The framebuffer over one swapchain image.
#[derive(Clone, Copy, Debug, PartialEq, Eq, Structural)]
pub struct Framebuffer {
    /// The swapchain image that takes the final colour.
    pub image_index: u32,
    pub extent: Extent,
}

/// The region of the framebuffer that is drawn to.
#[derive(Clone, Copy, Debug, PartialEq, Eq, Structural)]
pub struct Viewport {
    pub extent: Extent,
}

/// The G-buffer and the framebuffers over it.
#[derive(Clone, Debug, PartialEq, Eq)]
pub struct GBuffer {
    pub framebuffers: Vec<Framebuffer>,
    pub color: Attachment,
    pub normal: Attachment,
    pub frag_location: Attachment,
    pub specular: Attachment,
    pub depth: Attachment,
}

/// The format in which an attachment is stored.
pub open spec fn format_of(kind: AttachmentKind) -> Format {
    match kind {
        AttachmentKind::FinalColor => Format::Swapchain,
        AttachmentKind::Color => Format::A2B10G10R10UnormPack32,
        AttachmentKind::Normals => Format::R16G16B16A16Sfloat,
        AttachmentKind::FragLocation => Format::R16G16B16A16Sfloat,
        AttachmentKind::Specular => Format::R16G16Sfloat,
        AttachmentKind::Depth => Format::D16Unorm,
    }
}

/// What an off-screen attachment is used for: the depth image is written by
/// the depth test alone, the others are written by the geometry pass and
/// read by the lighting pass. None outlives the render pass.
pub open spec fn usage_of(kind: AttachmentKind) -> ImageUsage {
    ImageUsage {
        color_attachment: kind != AttachmentKind::Depth,
        depth_stencil_attachment: kind == AttachmentKind::Depth,
        input_attachment: kind != AttachmentKind::Depth,
        transient_attachment: true,
        transfer_dst: false,
        sampled: false,
    }
}

/// The off-screen attachment of `kind` at `extent`.
pub open spec fn attachment_for(kind: AttachmentKind, extent: Extent) -> Attachment {
    Attachment { kind, format: format_of(kind), extent, usage: usage_of(kind) }
}

/// The binding order of a framebuffer's attachments.
pub open spec fn binding_order() -> Seq<AttachmentKind> {
    seq![
        AttachmentKind::FinalColor,
        AttachmentKind::Color,
        AttachmentKind::Normals,
        AttachmentKind::FragLocation,
        AttachmentKind::Specular,
        AttachmentKind::Depth,
    ]
}

impl Attachment {
    /// Describes the off-screen attachment of `kind` at `extent`.
    pub fn new(kind: AttachmentKind, extent: Extent) -> (a: Attachment)
        ensures
            a == attachment_for(kind, extent),
    {
        let format = match kind {
            AttachmentKind::FinalColor => Format::Swapchain,
            AttachmentKind::Color => Format::A2B10G10R10UnormPack32,
            AttachmentKind::Normals => Format::R16G16B16A16Sfloat,
            AttachmentKind::FragLocation => Format::R16G16B16A16Sfloat,
            AttachmentKind::Specular => Format::R16G16Sfloat,
            AttachmentKind::Depth => Format::D16Unorm,
        };
        let is_depth = match kind {
            AttachmentKind::Depth => true,
            _ => false,
        };
        Attachment {
            kind,
            format,
            extent,
            usage: ImageUsage {
                color_attachment: !is_depth,
                depth_stencil_attachment: is_depth,
                input_attachment: !is_depth,
                transient_attachment: true,
                transfer_dst: false,
                sampled: false,
            },
        }
    }
}

impl Framebuffer {
    /// The attachments of every framebuffer, in binding order: the swapchain
    /// image first, the depth image last.
    pub fn attachments() -> (kinds: [AttachmentKind; 6])
        ensures
            kinds@ == binding_order(),
    {
        let kinds = [
            AttachmentKind::FinalColor,
            AttachmentKind::Color,
            AttachmentKind::Normals,
            AttachmentKind::FragLocation,
            AttachmentKind::Specular,
            AttachmentKind::Depth,
        ];
        kinds
    }
}

/// The attachment set as a value: what each image is, and the framebuffers
/// in the order of the swapchain images.
pub struct GBufferView {
    pub framebuffers: Seq<Framebuffer>,
    pub color: Attachment,
    pub normal: Attachment,
    pub frag_location: Attachment,
    pub specular: Attachment,
    pub depth: Attachment,
}

/// The one attachment set for a swapchain of `image_count` images of
/// `extent`: every image of it, and every framebuffer, has that extent.
pub open spec fn gbuffer_for(extent: Extent, image_count: nat) -> GBufferView {
    GBufferView {
        framebuffers: Seq::new(image_count, |i: int| Framebuffer { image_index: i as u32, extent }),
        color: attachment_for(AttachmentKind::Color, extent),
        normal: attachment_for(AttachmentKind::Normals, extent),
        frag_location: attachment_for(AttachmentKind::FragLocation, extent),
        specular: attachment_for(AttachmentKind::Specular, extent),
        depth: attachment_for(AttachmentKind::Depth, extent),
    }
}

impl GBufferView {
    /// The extent that the set was built for.
    pub open spec fn extent(self) -> Extent {
        self.depth.extent
    }

    /// The set is whole: all of it was built for one extent.
    pub open spec fn wf(self) -> bool {
        self == gbuffer_for(self.extent(), self.framebuffers.len())
    }
}

impl View for GBuffer {
    type V = GBufferView;

    open spec fn view(&self) -> GBufferView {
        GBufferView {
            framebuffers: self.framebuffers@,
            color: self.color,
            normal: self.normal,
            frag_location: self.frag_location,
            specular: self.specular,
            depth: self.depth,
        }
    }
}

impl GBuffer {
    /// The number of swapchain images that have a framebuffer.
    pub fn image_count(&self) -> (n: usize)
        ensures
            n == self@.framebuffers.len(),
    {
        self.framebuffers.len()
    }
}

/// Builds the whole attachment set for a swapchain of `image_count` images
/// of `image_extent`, and sizes the viewport to it.
pub fn window_size_dependent_setup(
    image_extent: Extent,
    image_count: u32,
    viewport: &mut Viewport,
) -> (gbuffer: GBuffer)
    ensures
        gbuffer@ == gbuffer_for(image_extent, image_count as nat),
        final(viewport).extent == image_extent,
{
    viewport.extent = image_extent;
    let mut framebuffers: Vec<Framebuffer> = Vec::new();
    let mut i: u32 = 0;
    while i < image_count
        invariant
            i <= image_count,
            framebuffers@.len() == i,
            forall|k: int|
                0 <= k < i ==> #[trigger] framebuffers@[k] == (Framebuffer {
                    image_index: k as u32,
                    extent: image_extent,
                }),
        decreases image_count - i,
    {
        framebuffers.push(Framebuffer { image_index: i, extent: image_extent });
        i = i + 1;
    }
    assert(framebuffers@ =~= gbuffer_for(image_extent, image_count as nat).framebuffers);
    GBuffer {
        framebuffers,
        color: Attachment::new(AttachmentKind::Color, image_extent),
        normal: Attachment::new(AttachmentKind::Normals, image_extent),
        frag_location: Attachment::new(AttachmentKind::FragLocation, image_extent),
        specular: Attachment::new(AttachmentKind::Specular, image_extent),
        depth: Attachment::new(AttachmentKind::Depth, image_extent),
    }
}

/// In the attachment set built for an extent, every image and every
/// framebuffer has that extent, and there is one framebuffer for each
/// swapchain image.
pub proof fn lemma_gbuffer_sized(extent: Extent, image_count: nat)
    ensures
        gbuffer_for(extent, image_count).wf(),
        gbuffer_for(extent, image_count).extent() == extent,
        gbuffer_for(extent, image_count).color.extent == extent,
        gbuffer_for(extent, image_count).normal.extent == extent,
        gbuffer_for(extent, image_count).frag_location.extent == extent,
        gbuffer_for(extent, image_count).specular.extent == extent,
        gbuffer_for(extent, image_count).depth.extent == extent,
        gbuffer_for(extent, image_count).framebuffers.len() == image_count,
        forall|i: int|
            0 <= i < image_count ==> (#[trigger] gbuffer_for(
                extent,
                image_count,
            ).framebuffers[i]).extent == extent,
{
}

} // verus!
