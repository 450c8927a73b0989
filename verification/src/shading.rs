//! Shading parameters: matrices, lights and the uniform blocks built from
//! them for the lighting passes.
//!
//! Every component is a 32-bit word holding the bit pattern of a
//! single-precision number. The library stores and forwards these words; it
//! never does arithmetic on them.

use vstd::prelude::*;

verus! {

/// The word for 0.0.
pub const ZERO: u32 = 0;

/// The word for 1.0.
pub const ONE: u32 = 0x3F80_0000;

/// The word for 0.1.
pub const ONE_TENTH: u32 = 0x3DCC_CCCD;

/// The word for 0.5.
pub const ONE_HALF: u32 = 0x3F00_0000;

/// The word for 32.0.
pub const THIRTY_TWO: u32 = 0x4200_0000;

/// The word for a quarter turn, in radians.
pub const HALF_PI: u32 = 0x3FC9_0FDB;

/// The word for 0.01.
pub const ONE_HUNDREDTH: u32 = 0x3C23_D70A;

/// The word for 1000.0.
pub const ONE_THOUSAND: u32 = 0x447A_0000;

/// The parameters of a perspective projection.
#[derive(Clone, Copy, Debug, PartialEq, Eq)]
pub struct Perspective {
    /// The width of the surface; width over height is the aspect ratio.
    pub width: u32,
    /// The height of the surface.
    pub height: u32,
    /// The vertical field of view, in radians.
    pub fovy: u32,
    /// The distance of the near plane.
    pub near: u32,
    /// The distance of the far plane.
    pub far: u32,
}

/// The projection of the renderer for a surface of `width` by `height`: the
/// field of view and the two planes are fixed, and only the aspect ratio
/// follows the surface.
pub fn perspective_for(width: u32, height: u32) -> (perspective: Perspective)
    ensures
        perspective == (Perspective {
            width,
            height,
            fovy: HALF_PI,
            near: ONE_HUNDREDTH,
            far: ONE_THOUSAND,
        }),
{
    Perspective { width, height, fovy: HALF_PI, near: ONE_HUNDREDTH, far: ONE_THOUSAND }
}

/// A 4x4 matrix, column by column.
#[derive(Clone, Copy, Debug, PartialEq, Eq)]
pub struct Mat4 {
    pub cols: [u32; 16],
}

impl Mat4 {
    /// The sixteen words of the identity matrix.
    pub open spec fn spec_identity() -> Seq<u32> {
        seq![ONE, ZERO, ZERO, ZERO, ZERO, ONE, ZERO, ZERO, ZERO, ZERO, ONE, ZERO, ZERO, ZERO, ZERO, ONE]
    }

    /// The identity matrix.
    pub fn identity() -> (m: Mat4)
        ensures
            m.cols@ == Mat4::spec_identity(),
    {
        let m = Mat4 {
            cols: [ONE, ZERO, ZERO, ZERO, ZERO, ONE, ZERO, ZERO, ZERO, ZERO, ONE, ZERO, ZERO, ZERO, ZERO, ONE],
        };
        m
    }
}

/// A light that shines from one direction on the whole scene.
#[derive(Clone, Copy, Debug, PartialEq, Eq)]
pub struct DirectionalLight {
    position: [u32; 4],
    color: [u32; 3],
}

impl DirectionalLight {
    pub closed spec fn position(&self) -> [u32; 4] {
        self.position
    }

    pub closed spec fn color(&self) -> [u32; 3] {
        self.color
    }

    pub fn new(position: [u32; 4], color: [u32; 3]) -> (light: DirectionalLight)
        ensures
            light.position() == position,
            light.color() == color,
    {
        DirectionalLight { position, color }
    }

    /// The first three components of the position.
    pub fn get_position(&self) -> (p: [u32; 3])
        ensures
            p@ == self.position()@.subrange(0, 3),
    {
        let p: [u32; 3] = [self.position[0], self.position[1], self.position[2]];
        p
    }

    /// The uniform block that the directional pass reads.
    pub open spec fn spec_uniform(&self) -> DirectionalLightData {
        DirectionalLightData { position: self.position(), color: self.color() }
    }

    /// The uniform block that the directional pass reads.
    pub fn uniform(&self) -> (data: DirectionalLightData)
        ensures
            data == self.spec_uniform(),
    {
        DirectionalLightData { position: self.position, color: self.color }
    }
}

impl Default for DirectionalLight {
    fn default() -> (light: DirectionalLight)
        ensures
            light.position()@ == seq![ZERO, ZERO, ZERO, ZERO],
            light.color()@ == seq![ZERO, ZERO, ZERO],
    {
        let light = DirectionalLight { position: [ZERO, ZERO, ZERO, ZERO], color: [ZERO, ZERO, ZERO] };
        light
    }
}

/// A light that shines from a point and fades out at `radius`.
#[derive(Clone, Copy, Debug, PartialEq, Eq)]
pub struct PointLight {
    position: [u32; 4],
    color: [u32; 3],
    intensity: u32,
    radius: u32,
}

impl PointLight {
    pub closed spec fn position(&self) -> [u32; 4] {
        self.position
    }

    pub closed spec fn color(&self) -> [u32; 3] {
        self.color
    }

    pub closed spec fn intensity(&self) -> u32 {
        self.intensity
    }

    pub closed spec fn radius(&self) -> u32 {
        self.radius
    }

    pub fn new(position: [u32; 4], color: [u32; 3], intensity: u32, radius: u32) -> (light:
        PointLight)
        ensures
            light.position() == position,
            light.color() == color,
            light.intensity() == intensity,
            light.radius() == radius,
    {
        PointLight { position, color, intensity, radius }
    }

    /// The uniform block that the point-light pass reads.
    pub open spec fn spec_uniform(&self) -> PointLightData {
        PointLightData {
            position: self.position(),
            color: self.color(),
            intensity: self.intensity(),
            radius: self.radius(),
        }
    }

    /// The uniform block that the point-light pass reads.
    pub fn uniform(&self) -> (data: PointLightData)
        ensures
            data == self.spec_uniform(),
    {
        PointLightData {
            position: self.position,
            color: self.color,
            intensity: self.intensity,
            radius: self.radius,
        }
    }
}

impl Default for PointLight {
    fn default() -> (light: PointLight)
        ensures
            light.position()@ == seq![ZERO, ZERO, ZERO, ZERO],
            light.color()@ == seq![ZERO, ZERO, ZERO],
            light.intensity() == ZERO,
            light.radius() == ZERO,
    {
        let light = PointLight {
            position: [ZERO, ZERO, ZERO, ZERO],
            color: [ZERO, ZERO, ZERO],
            intensity: ZERO,
            radius: ZERO,
        };
        light
    }
}

/// The uniform block of the ambient pass.
#[derive(Clone, Copy, Debug, PartialEq, Eq)]
pub struct AmbientData {
    pub color: [u32; 3],
    pub intensity: u32,
}

/// The uniform block of one directional light.
#[derive(Clone, Copy, Debug, PartialEq, Eq)]
pub struct DirectionalLightData {
    pub position: [u32; 4],
    pub color: [u32; 3],
}

/// The uniform block of one point light.
#[derive(Clone, Copy, Debug, PartialEq, Eq)]
pub struct PointLightData {
    pub position: [u32; 4],
    pub color: [u32; 3],
    pub intensity: u32,
    pub radius: u32,
}

/// The uniform block that tells a lighting pass where the camera stands.
#[derive(Clone, Copy, Debug, PartialEq, Eq)]
pub struct CameraData {
    pub position: [u32; 3],
}

/// The uniform block of the geometry pass: view and projection.
#[derive(Clone, Copy, Debug, PartialEq, Eq)]
pub struct VpData {
    pub view: Mat4,
    pub projection: Mat4,
}

/// The model and normal matrices pushed with each mesh draw.
#[derive(Clone, Copy, Debug, PartialEq, Eq)]
pub struct PushConstants {
    pub model: Mat4,
    pub normals: Mat4,
}

/// The camera as the renderer keeps it on the host.
#[derive(Clone, Copy, Debug, PartialEq, Eq)]
pub struct VP {
    pub view: Mat4,
    pub projection: Mat4,
    pub camera_pos: [u32; 3],
}

impl VP {
    /// Identity view and projection, camera at the origin.
    pub fn new() -> (vp: VP)
        ensures
            vp.view.cols@ == Mat4::spec_identity(),
            vp.projection.cols@ == Mat4::spec_identity(),
            vp.camera_pos@ == seq![ZERO, ZERO, ZERO],
    {
        let vp = VP {
            view: Mat4::identity(),
            projection: Mat4::identity(),
            camera_pos: [ZERO, ZERO, ZERO],
        };
        vp
    }

    /// What the uniform buffer of the geometry pass must hold for this
    /// camera.
    pub open spec fn data(self) -> VpData {
        VpData { view: self.view, projection: self.projection }
    }
}

} // verus!
