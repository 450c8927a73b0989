//! The skybox: six face images of one size, decoded on the host and placed
//! on the GPU as the layers of one cube image.

use vstd::prelude::*;
use crate::gbuffer::{Extent, Format};
use crate::mesh::{copy_bytes, sampled_usage, GpuImage, Texture};

verus! {

/// The error of the `image` crate.
#[verifier::external_type_specification]
#[verifier::external_body]
pub struct ExImageError(image::ImageError);

/// The image formats that the `image` crate knows.
#[verifier::external_type_specification]
#[verifier::external_body]
pub struct ExImageFormat(image::ImageFormat);

/// Tells the format of an image file by the extension of its name.
///
/// Calls `image::ImageFormat::from_path`. Nothing is claimed of the outcome.
#[verifier::external_body]
fn format_of_path(path: &str) -> (format: Result<image::ImageFormat, image::ImageError>) {
    image::ImageFormat::from_path(path)
}

/// Decodes an image of the given format held in memory, and converts it to
/// RGBA8.
///
/// Calls `image::load_from_memory_with_format`, then `DynamicImage::to_rgba8`
/// on what it finds, and takes the size and the bytes out of the buffer with
/// `ImageBuffer::dimensions` and `ImageBuffer::into_raw`. Nothing is claimed
/// of the outcome: not whether the bytes decode, nor what they decode to,
/// nor that the same bytes decode alike twice.
#[verifier::external_body]
fn decode_rgba8(encoded: &[u8], format: image::ImageFormat) -> (decoded: Result<
    Texture,
    image::ImageError,
>) {
    let rgba = image::load_from_memory_with_format(encoded, format)?.to_rgba8();
    let (width, height) = rgba.dimensions();
    Ok(Texture { width, height, pixels: rgba.into_raw() })
}

/// Decodes the content of the image file `path`, in the format that the
/// extension of the name tells.
fn decode_face(path: &str, encoded: &Vec<u8>) -> (face: Option<Texture>) {
    match format_of_path(path) {
        Ok(format) => match decode_rgba8(encoded.as_slice(), format) {
            Ok(texture) => Some(texture),
            Err(_) => None,
        },
        Err(_) => None,
    }
}

/// Why six images make no skybox.
#[derive(Clone, Copy, Debug, PartialEq, Eq, Structural)]
pub enum SkyboxError {
    /// The file of this face is no image that can be read: its name tells
    /// no format, or its content is not of that format.
    Undecodable { face: usize },
    /// This face has not the size of the first, or not four bytes for each
    /// of its pixels.
    Mismatch { face: usize },
}

/// The pixels of the six faces of a skybox, in the order right, left, up,
/// down, front, back.
#[derive(Clone, Debug, PartialEq, Eq)]
pub struct SkyboxImages {
    /// The RGBA8 pixels of each face.
    pub faces: [Vec<u8>; 6],
    /// The size that every face has.
    pub extent: Extent,
}

/// A skybox on the GPU.
#[derive(Clone, Copy, Debug, PartialEq, Eq, Structural)]
pub struct Skybox {
    pub cubemap: GpuImage,
}

/// The bytes to copy into the cube image of a skybox, with the skybox that
/// comes of it.
#[derive(Clone, Debug, PartialEq, Eq)]
pub struct SkyboxUpload {
    /// The six faces one after the other, for a single copy.
    pub pixels: Vec<u8>,
    pub skybox: Skybox,
}

/// A decoded face fits a skybox of `extent`.
pub open spec fn face_fits(face: (u32, u32, Seq<u8>), extent: Extent) -> bool {
    face.0 == extent.width && face.1 == extent.height && face.2.len() == 4 * extent.width
        * extent.height
}

/// The size of the first face.
pub open spec fn first_extent(faces: Seq<(u32, u32, Seq<u8>)>) -> Extent {
    Extent { width: faces[0].0, height: faces[0].1 }
}

/// The first of the first `n` faces that does not fit the size of the first
/// face, if there is one.
pub open spec fn first_misfit(faces: Seq<(u32, u32, Seq<u8>)>, n: int) -> Option<int>
    decreases n,
{
    if n <= 0 {
        None
    } else {
        match first_misfit(faces, n - 1) {
            Some(i) => Some(i),
            None => if face_fits(faces[n - 1], first_extent(faces)) {
                None
            } else {
                Some(n - 1)
            },
        }
    }
}

/// A texture as a triple: width, height and the pixel bytes.
pub open spec fn face_of(texture: Texture) -> (u32, u32, Seq<u8>) {
    (texture.width, texture.height, texture.pixels@)
}

/// The cube image for faces of `extent`.
pub open spec fn cube_image(extent: Extent) -> GpuImage {
    GpuImage {
        format: Format::R8G8B8A8Srgb,
        width: extent.width,
        height: extent.height,
        array_layers: 6,
        usage: sampled_usage(),
        cube_compatible: true,
    }
}

impl SkyboxImages {
    /// The pixels of the six faces.
    pub open spec fn pixels(&self) -> Seq<Seq<u8>> {
        Seq::new(6, |i: int| self.faces@[i]@)
    }

    /// Every face has four bytes for each pixel of the common size.
    pub open spec fn wf(&self) -> bool {
        forall|i: int|
            0 <= i < 6 ==> (#[trigger] self.faces@[i])@.len() == 4 * self.extent.width
                * self.extent.height
    }

    /// Whether every face has four bytes for each pixel of the common size.
    pub fn is_wf(&self) -> (b: bool)
        ensures
            b == self.wf(),
    {
        let mut i: usize = 0;
        while i < 6
            invariant
                i <= 6,
                forall|k: int|
                    0 <= k < i ==> (#[trigger] self.faces@[k])@.len() == 4 * self.extent.width
                        * self.extent.height,
            decreases 6 - i,
        {
            if !fits(self.faces[i].len(), self.extent) {
                return false;
            }
            i = i + 1;
        }
        true
    }

    /// Makes a skybox of six decoded faces.
    ///
    /// The faces are taken where each has the size of the first and four
    /// bytes for each of its pixels. Otherwise the first face of which that
    /// does not hold is named.
    pub fn from_faces(faces: &[Texture; 6]) -> (images: Result<SkyboxImages, SkyboxError>)
        ensures
            match images {
                Ok(skybox) => {
                    &&& first_misfit(faces@.map_values(|t: Texture| face_of(t)), 6) is None
                    &&& skybox.extent == (Extent { width: faces@[0].width, height: faces@[0].height })
                    &&& skybox.pixels() == faces@.map_values(|t: Texture| t.pixels@)
                    &&& skybox.wf()
                },
                Err(error) => {
                    &&& first_misfit(faces@.map_values(|t: Texture| face_of(t)), 6) matches Some(face)
                    &&& error == (SkyboxError::Mismatch { face: face as usize })
                },
            },
    {
        let extent = Extent { width: faces[0].width, height: faces[0].height };
        let ghost triples = faces@.map_values(|t: Texture| face_of(t));
        let mut i: usize = 0;
        while i < 6
            invariant
                i <= 6,
                triples == faces@.map_values(|t: Texture| face_of(t)),
                extent == first_extent(triples),
                first_misfit(triples, i as int) is None,
            decreases 6 - i,
        {
            let face = &faces[i];
            if face.width != extent.width || face.height != extent.height || !fits(
                face.pixels.len(),
                extent,
            ) {
                proof {
                    lemma_first_misfit_stays(triples, i as int + 1, 6);
                }
                return Err(SkyboxError::Mismatch { face: i });
            }
            i = i + 1;
        }
        let skybox = SkyboxImages {
            faces: [
                copy_bytes(&faces[0].pixels),
                copy_bytes(&faces[1].pixels),
                copy_bytes(&faces[2].pixels),
                copy_bytes(&faces[3].pixels),
                copy_bytes(&faces[4].pixels),
                copy_bytes(&faces[5].pixels),
            ],
            extent,
        };
        proof {
            assert forall|k: int| 0 <= k < 6 implies (#[trigger] skybox.faces@[k])@.len() == 4
                * extent.width * extent.height by {
                lemma_no_misfit(triples, 6, k);
            }
        }
        Ok(skybox)
    }

    /// Decodes the six face images and makes a skybox of them.
    ///
    /// `images` holds the names of the six files and `files` their content.
    /// Each face is decoded in the format that the extension of its name
    /// tells, and what comes of it goes through `from_faces`. Whether a file
    /// decodes, and to what, is for the decoder to say; whatever it says, a
    /// skybox that comes back is in order, and an error names one of the six
    /// faces: the first that did not decode or, where all did, the first
    /// that does not fit.
    pub fn new(images: [&str; 6], files: &[Vec<u8>; 6]) -> (skybox: Result<
        SkyboxImages,
        SkyboxError,
    >)
        ensures
            match skybox {
                Ok(s) => s.wf(),
                Err(SkyboxError::Undecodable { face }) => face < 6,
                Err(SkyboxError::Mismatch { face }) => face < 6,
            },
    {
        let t0 = match decode_face(images[0], &files[0]) {
            Some(t) => t,
            None => {
                return Err(SkyboxError::Undecodable { face: 0 });
            },
        };
        let t1 = match decode_face(images[1], &files[1]) {
            Some(t) => t,
            None => {
                return Err(SkyboxError::Undecodable { face: 1 });
            },
        };
        let t2 = match decode_face(images[2], &files[2]) {
            Some(t) => t,
            None => {
                return Err(SkyboxError::Undecodable { face: 2 });
            },
        };
        let t3 = match decode_face(images[3], &files[3]) {
            Some(t) => t,
            None => {
                return Err(SkyboxError::Undecodable { face: 3 });
            },
        };
        let t4 = match decode_face(images[4], &files[4]) {
            Some(t) => t,
            None => {
                return Err(SkyboxError::Undecodable { face: 4 });
            },
        };
        let t5 = match decode_face(images[5], &files[5]) {
            Some(t) => t,
            None => {
                return Err(SkyboxError::Undecodable { face: 5 });
            },
        };
        let faces = [t0, t1, t2, t3, t4, t5];
        proof {
            lemma_misfit_is_a_face(faces@.map_values(|t: Texture| face_of(t)), 6);
        }
        SkyboxImages::from_faces(&faces)
    }
}

/// Whether `len` bytes are four for each pixel of `extent`.
fn fits(len: usize, extent: Extent) -> (b: bool)
    ensures
        b == (len == 4 * extent.width * extent.height),
{
    let width: u64 = extent.width as u64;
    let height: u64 = extent.height as u64;
    assert(width * height <= 0xFFFF_FFFE_0000_0001) by (nonlinear_arith)
        requires
            width <= 0xFFFF_FFFF,
            height <= 0xFFFF_FFFF,
    ;
    let pixels: u64 = width * height;
    assert(4 * extent.width * extent.height == 4 * (extent.width * extent.height))
        by (nonlinear_arith);
    (len as u128) == 4 * (pixels as u128)
}

/// The first misfit among the first `n` faces is one of them.
proof fn lemma_misfit_is_a_face(faces: Seq<(u32, u32, Seq<u8>)>, n: int)
    ensures
        first_misfit(faces, n) matches Some(i) ==> 0 <= i < n,
    decreases n,
{
    if n > 0 {
        lemma_misfit_is_a_face(faces, n - 1);
    }
}

/// A misfit among the first faces is the first misfit among more of them.
proof fn lemma_first_misfit_stays(faces: Seq<(u32, u32, Seq<u8>)>, n: int, m: int)
    requires
        0 <= n <= m,
        first_misfit(faces, n) is Some,
    ensures
        first_misfit(faces, m) == first_misfit(faces, n),
    decreases m - n,
{
    if n < m {
        lemma_first_misfit_stays(faces, n, m - 1);
    }
}

/// Where none of the first `n` faces is a misfit, each of them fits.
proof fn lemma_no_misfit(faces: Seq<(u32, u32, Seq<u8>)>, n: int, k: int)
    requires
        0 <= k < n,
        first_misfit(faces, n) is None,
    ensures
        face_fits(faces[k], first_extent(faces)),
    decreases n,
{
    if k < n - 1 {
        lemma_no_misfit(faces, n - 1, k);
    }
}

} // verus!
