//! The uploads that happen once, at load time: a mesh with its texture, and
//! the skybox. The renderer says what goes where; the backend copies and
//! waits for the copy to end before it goes on.

use vstd::prelude::*;
use crate::gbuffer::{Format, ImageUsage};
use crate::mesh::{
    base_color_image, base_color_pixels, copy_bytes, default_specular, sampled_usage, texel,
    DescriptorSet, GpuImage, IndexBuffer, Mesh, Model, SpecularData, TextureUpload, VertexBuffer,
};
use crate::renderer::Renderer;
use crate::shading::{ONE_HALF, THIRTY_TWO};
use crate::skybox::{cube_image, Skybox, SkyboxImages, SkyboxUpload};

verus! {

/// The six faces of a skybox one after the other.
pub open spec fn cube_pixels(images: SkyboxImages) -> Seq<u8> {
    images.faces@[0]@ + images.faces@[1]@ + images.faces@[2]@ + images.faces@[3]@
        + images.faces@[4]@ + images.faces@[5]@
}

/// The upload of one mesh of a model.
#[derive(Clone, Debug, PartialEq, Eq)]
pub struct MeshUpload {
    /// The position of the mesh in its model.
    pub mesh: usize,
    pub texture: TextureUpload,
}

/// A mesh once it is on the GPU: the host data as before, and the four
/// resources made for it.
pub open spec fn uploaded(mesh: Mesh) -> Mesh {
    Mesh {
        texture: Some(base_color_image(mesh.material)),
        vertex_buffer: Some(VertexBuffer { len: mesh.vertices@.len() as usize }),
        index_buffer: Some(IndexBuffer { len: mesh.indices@.len() as u32 }),
        persist_desc_set: Some(
            DescriptorSet {
                specular: default_specular(),
                texture: base_color_image(mesh.material),
            },
        ),
        ..mesh
    }
}

/// A mesh that is due for upload: it is not on the GPU yet, and a draw call
/// can count its indices.
pub open spec fn due(mesh: Mesh) -> bool {
    !mesh.is_uploaded() && mesh.drawable()
}

/// The positions of the meshes that are due for upload, in order.
pub open spec fn due_positions(meshes: Seq<Mesh>) -> Seq<int>
    decreases meshes.len(),
{
    if meshes.len() == 0 {
        Seq::empty()
    } else if due(meshes.last()) {
        due_positions(meshes.drop_last()).push(meshes.len() - 1)
    } else {
        due_positions(meshes.drop_last())
    }
}

/// Appends `bytes` to `pixels`.
fn append_bytes(pixels: &mut Vec<u8>, bytes: &Vec<u8>)
    ensures
        final(pixels)@ == old(pixels)@ + bytes@,
{
    let ghost before = pixels@;
    let mut i: usize = 0;
    while i < bytes.len()
        invariant
            i <= bytes@.len(),
            pixels@ == before + bytes@.subrange(0, i as int),
        decreases bytes@.len() - i,
    {
        pixels.push(bytes[i]);
        i = i + 1;
    }
}

/// The usage of an image that is filled once and sampled afterwards.
fn sampled() -> (usage: ImageUsage)
    ensures
        usage == sampled_usage(),
{
    ImageUsage {
        color_attachment: false,
        depth_stencil_attachment: false,
        input_attachment: false,
        transient_attachment: false,
        transfer_dst: true,
        sampled: true,
    }
}

impl Renderer {
    /// Places a mesh on the GPU.
    ///
    /// The mesh gets a texture image, filled from the base colour texture of
    /// its material or, without one, from the one texel of its flat colour;
    /// a vertex buffer and an index buffer as long as its host arrays; and
    /// the descriptor set that binds the highlight and the texture. From
    /// then on it can be drawn. The host data of the mesh stays as it is.
    ///
    /// A mesh is uploaded once, and its indices must be countable in 32
    /// bits.
    pub fn upload_mesh_to_gpu(&self, mesh: &mut Mesh) -> (upload: TextureUpload)
        requires
            !old(mesh).is_uploaded(),
            old(mesh).drawable(),
        ensures
            final(mesh).is_uploaded(),
            final(mesh).vertices == old(mesh).vertices,
            final(mesh).indices == old(mesh).indices,
            final(mesh).material == old(mesh).material,
            final(mesh).texture == Some(base_color_image(old(mesh).material)),
            final(mesh).vertex_buffer == Some(VertexBuffer { len: old(mesh).vertices@.len() as usize }),
            final(mesh).index_buffer == Some(IndexBuffer { len: old(mesh).indices@.len() as u32 }),
            final(mesh).persist_desc_set == Some(
                DescriptorSet {
                    specular: default_specular(),
                    texture: base_color_image(old(mesh).material),
                },
            ),
            upload.pixels@ == base_color_pixels(old(mesh).material),
            upload.image == base_color_image(old(mesh).material),
            *final(mesh) == uploaded(*old(mesh)),
    {
        let (pixels, width, height) = match &mesh.material.base_color_texture {
            Some(texture) => (copy_bytes(&texture.pixels), texture.width, texture.height),
            None => (texel(&mesh.material.base_color_factor), 1u32, 1u32),
        };
        let image = GpuImage {
            format: Format::R8G8B8A8Srgb,
            width,
            height,
            array_layers: 1,
            usage: sampled(),
            cube_compatible: false,
        };
        mesh.texture = Some(image);
        mesh.vertex_buffer = Some(VertexBuffer { len: mesh.vertices.len() });
        mesh.index_buffer = Some(IndexBuffer { len: mesh.indices.len() as u32 });
        mesh.persist_desc_set = Some(
            DescriptorSet {
                specular: SpecularData { intensity: ONE_HALF, shininess: THIRTY_TWO },
                texture: image,
            },
        );
        TextureUpload { pixels, image }
    }

    /// Places on the GPU every mesh of `model` that is due for it.
    ///
    /// A mesh that is on the GPU already is left alone, and so is one with
    /// more indices than a draw call can count. The uploads come back in the
    /// order of the meshes, each with the position of its mesh.
    pub fn upload_model(&self, model: &mut Model) -> (uploads: Vec<MeshUpload>)
        ensures
            final(model).meshes@.len() == old(model).meshes@.len(),
            forall|i: int|
                0 <= i < old(model).meshes@.len() ==> #[trigger] final(model).meshes@[i] == if due(
                    old(model).meshes@[i],
                ) {
                    uploaded(old(model).meshes@[i])
                } else {
                    old(model).meshes@[i]
                },
            uploads@.len() == due_positions(old(model).meshes@).len(),
            forall|k: int|
                0 <= k < uploads@.len() ==> {
                    let at = due_positions(old(model).meshes@)[k];
                    &&& 0 <= at < old(model).meshes@.len()
                    &&& (#[trigger] uploads@[k]).mesh == at
                    &&& uploads@[k].texture.pixels@ == base_color_pixels(
                        old(model).meshes@[at].material,
                    )
                    &&& uploads@[k].texture.image == base_color_image(
                        old(model).meshes@[at].material,
                    )
                },
    {
        let mut uploads: Vec<MeshUpload> = Vec::new();
        let ghost before = model.meshes@;
        let mut i: usize = 0;
        while i < model.meshes.len()
            invariant
                i <= before.len(),
                model.meshes@.len() == before.len(),
                forall|j: int|
                    0 <= j < i ==> #[trigger] model.meshes@[j] == if due(before[j]) {
                        uploaded(before[j])
                    } else {
                        before[j]
                    },
                forall|j: int| i <= j < before.len() ==> #[trigger] model.meshes@[j] == before[j],
                uploads@.len() == due_positions(before.take(i as int)).len(),
                forall|k: int|
                    0 <= k < uploads@.len() ==> {
                        let at = due_positions(before.take(i as int))[k];
                        &&& 0 <= at < i
                        &&& (#[trigger] uploads@[k]).mesh == at
                        &&& uploads@[k].texture.pixels@ == base_color_pixels(before[at].material)
                        &&& uploads@[k].texture.image == base_color_image(before[at].material)
                    },
            decreases before.len() - i,
        {
            proof {
                let upto = before.take(i + 1);
                assert(upto.drop_last() =~= before.take(i as int));
            }
            if !model.meshes[i].uploaded() && model.meshes[i].is_drawable() {
                let texture = self.upload_mesh_to_gpu(&mut model.meshes[i]);
                uploads.push(MeshUpload { mesh: i, texture });
            }
            i = i + 1;
        }
        assert(before.take(before.len() as int) =~= before);
        uploads
    }

    /// Places a skybox on the GPU.
    ///
    /// The six faces go one after the other into one buffer, for a single
    /// copy into a cube image of six layers, each of the size of a face.
    ///
    /// The faces must all have that size: four bytes for each pixel.
    pub fn upload_skybox(&self, skybox_images: SkyboxImages) -> (upload: SkyboxUpload)
        requires
            skybox_images.wf(),
        ensures
            upload.pixels@ == cube_pixels(skybox_images),
            upload.pixels@.len() == 6 * (4 * skybox_images.extent.width
                * skybox_images.extent.height),
            upload.skybox.cubemap == cube_image(skybox_images.extent),
    {
        let mut pixels: Vec<u8> = Vec::new();
        append_bytes(&mut pixels, &skybox_images.faces[0]);
        append_bytes(&mut pixels, &skybox_images.faces[1]);
        append_bytes(&mut pixels, &skybox_images.faces[2]);
        append_bytes(&mut pixels, &skybox_images.faces[3]);
        append_bytes(&mut pixels, &skybox_images.faces[4]);
        append_bytes(&mut pixels, &skybox_images.faces[5]);
        SkyboxUpload {
            pixels,
            skybox: Skybox {
                cubemap: GpuImage {
                    format: Format::R8G8B8A8Srgb,
                    width: skybox_images.extent.width,
                    height: skybox_images.extent.height,
                    array_layers: 6,
                    usage: sampled(),
                    cube_compatible: true,
                },
            },
        }
    }
}

} // verus!
