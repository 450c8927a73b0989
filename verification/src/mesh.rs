//! Meshes and materials as the renderer sees them: host data, and a
//! description of what has been placed on the GPU for them.

use vstd::prelude::*;
use crate::gbuffer::{Format, ImageUsage};
use crate::shading::{ONE_HALF, THIRTY_TWO};

verus! {

/// A vertex of a lit mesh.
#[derive(Clone, Copy, Debug, PartialEq, Eq)]
pub struct NormalVertex {
    pub position: [u32; 3],
    pub normal: [u32; 3],
    pub color: [u32; 3],
    pub uv: [u32; 2],
}

/// An RGBA8 image on the host, row by row.
#[derive(Clone, Debug, PartialEq, Eq)]
pub struct Texture {
    pub width: u32,
    pub height: u32,
    pub pixels: Vec<u8>,
}

/// What a mesh is painted with: a base colour texture, or else one flat
/// RGBA8 colour.
#[derive(Clone, Debug, PartialEq, Eq)]
pub struct Material {
    pub base_color_texture: Option<Texture>,
    pub base_color_factor: [u8; 4],
}

/// An image in device memory.
#[derive(Clone, Copy, Debug, PartialEq, Eq, Structural)]
pub struct GpuImage {
    pub format: Format,
    pub width: u32,
    pub height: u32,
    pub array_layers: u32,
    pub usage: ImageUsage,
    /// The layers are the six faces of a cube.
    pub cube_compatible: bool,
}

/// A vertex buffer in device memory.
#[derive(Clone, Copy, Debug, PartialEq, Eq, Structural)]
pub struct VertexBuffer {
    pub len: usize,
}

/// An index buffer in device memory.
#[derive(Clone, Copy, Debug, PartialEq, Eq, Structural)]
pub struct IndexBuffer {
    pub len: u32,
}

/// The highlight of a surface.
#[derive(Clone, Copy, Debug, PartialEq, Eq, Structural)]
pub struct SpecularData {
    pub intensity: u32,
    pub shininess: u32,
}

/// The bindings that stay with a mesh for all its draws: the specular
/// parameters at binding 1, the sampled base colour at binding 2.
#[derive(Clone, Copy, Debug, PartialEq, Eq, Structural)]
pub struct DescriptorSet {
    pub specular: SpecularData,
    pub texture: GpuImage,
}

/// A mesh: its vertices, its triangles, its material, and what was uploaded
/// of them.
#[derive(Clone, Debug, PartialEq, Eq)]
pub struct Mesh {
    pub vertices: Vec<NormalVertex>,
    pub indices: Vec<u32>,
    pub material: Material,
    pub texture: Option<GpuImage>,
    pub vertex_buffer: Option<VertexBuffer>,
    pub index_buffer: Option<IndexBuffer>,
    pub persist_desc_set: Option<DescriptorSet>,
}

/// The meshes that make up one asset.
#[derive(Clone, Debug, PartialEq, Eq)]
pub struct Model {
    pub meshes: Vec<Mesh>,
}

/// The bytes to copy into the texture of a mesh, with the image that takes
/// them.
#[derive(Clone, Debug, PartialEq, Eq)]
pub struct TextureUpload {
    pub pixels: Vec<u8>,
    pub image: GpuImage,
}

/// The usage of an image that is filled once and sampled afterwards.
pub open spec fn sampled_usage() -> ImageUsage {
    ImageUsage {
        color_attachment: false,
        depth_stencil_attachment: false,
        input_attachment: false,
        transient_attachment: false,
        transfer_dst: true,
        sampled: true,
    }
}

/// The image that holds the base colour of a material: the texture's size,
/// or a single texel for a flat colour.
pub open spec fn base_color_image(material: Material) -> GpuImage {
    GpuImage {
        format: Format::R8G8B8A8Srgb,
        width: match material.base_color_texture {
            Some(t) => t.width,
            None => 1,
        },
        height: match material.base_color_texture {
            Some(t) => t.height,
            None => 1,
        },
        array_layers: 1,
        usage: sampled_usage(),
        cube_compatible: false,
    }
}

/// The bytes of the base colour: the texture's pixels, or the four bytes of
/// the flat colour.
pub open spec fn base_color_pixels(material: Material) -> Seq<u8> {
    match material.base_color_texture {
        Some(t) => t.pixels@,
        None => material.base_color_factor@,
    }
}

/// The highlight that every mesh is given.
pub open spec fn default_specular() -> SpecularData {
    SpecularData { intensity: ONE_HALF, shininess: THIRTY_TWO }
}

/// A material as a value.
pub struct MaterialView {
    /// Width, height and pixels of the base colour texture.
    pub base_color_texture: Option<(u32, u32, Seq<u8>)>,
    pub base_color_factor: [u8; 4],
}

impl View for Material {
    type V = MaterialView;

    open spec fn view(&self) -> MaterialView {
        MaterialView {
            base_color_texture: match self.base_color_texture {
                Some(texture) => Some((texture.width, texture.height, texture.pixels@)),
                None => None,
            },
            base_color_factor: self.base_color_factor,
        }
    }
}

impl Material {
    /// A copy of the material.
    pub fn duplicate(&self) -> (copy: Material)
        ensures
            copy@ == self@,
    {
        Material {
            base_color_texture: match &self.base_color_texture {
                Some(texture) => Some(
                    Texture {
                        width: texture.width,
                        height: texture.height,
                        pixels: copy_bytes(&texture.pixels),
                    },
                ),
                None => None,
            },
            base_color_factor: self.base_color_factor,
        }
    }
}

impl Mesh {
    /// A mesh fresh from the loader: nothing of it is on the GPU.
    pub fn new(vertices: Vec<NormalVertex>, indices: Vec<u32>, material: Material) -> (mesh: Mesh)
        ensures
            mesh.vertices == vertices,
            mesh.indices == indices,
            mesh.material == material,
            mesh.texture is None,
            !mesh.is_uploaded(),
            mesh.vertex_buffer is None,
            mesh.index_buffer is None,
            mesh.persist_desc_set is None,
    {
        Mesh {
            vertices,
            indices,
            material,
            texture: None,
            vertex_buffer: None,
            index_buffer: None,
            persist_desc_set: None,
        }
    }

    /// The mesh can be drawn: its vertex buffer, its index buffer and its
    /// descriptor set are all there.
    pub open spec fn is_uploaded(&self) -> bool {
        self.vertex_buffer is Some && self.index_buffer is Some && self.persist_desc_set is Some
    }

    /// Whether the mesh can be drawn.
    pub fn uploaded(&self) -> (b: bool)
        ensures
            b == self.is_uploaded(),
    {
        self.vertex_buffer.is_some() && self.index_buffer.is_some()
            && self.persist_desc_set.is_some()
    }

    /// The number of indices fits the 32 bits that a draw call counts in.
    pub open spec fn drawable(&self) -> bool {
        self.indices@.len() <= u32::MAX
    }

    /// Whether the number of indices fits a draw call.
    pub fn is_drawable(&self) -> (b: bool)
        ensures
            b == self.drawable(),
    {
        self.indices.len() <= u32::MAX as usize
    }
}

/// The four bytes of `color` as a vector.
pub(crate) fn texel(color: &[u8; 4]) -> (pixels: Vec<u8>)
    ensures
        pixels@ == color@,
{
    let mut pixels: Vec<u8> = Vec::new();
    pixels.push(color[0]);
    pixels.push(color[1]);
    pixels.push(color[2]);
    pixels.push(color[3]);
    pixels
}

/// A copy of `bytes`.
pub(crate) fn copy_bytes(bytes: &Vec<u8>) -> (copy: Vec<u8>)
    ensures
        copy@ == bytes@,
{
    let mut copy: Vec<u8> = Vec::new();
    let mut i: usize = 0;
    while i < bytes.len()
        invariant
            i <= bytes@.len(),
            copy@ == bytes@.subrange(0, i as int),
        decreases bytes@.len() - i,
    {
        copy.push(bytes[i]);
        i = i + 1;
    }
    copy
}

} // verus!
