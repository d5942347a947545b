//! The camera, its projection, and the matrix that the GPU is given for both.

use crate::scalar::{
    append_words, identity_matrix, is_memory_image, mat4_identity, matrix_words, words_to_bytes,
    Mat4, Scalar, Vector3, ZERO,
};
use vstd::prelude::*;

verus! {

/// The bytes of the camera uniform: one matrix of sixteen scalars.
pub const CAMERA_UNIFORM_SIZE: u64 = 64;

/// The aspect ratio of a surface 1920 wide and 1080 high.
pub const DEFAULT_ASPECT: Scalar = 0x3fe3_8e39;

/// Seventy degrees in radians.
pub const DEFAULT_FOVY: Scalar = 0x3f9c_61aa;

/// The bit pattern of `0.1`.
pub const DEFAULT_ZNEAR: Scalar = 0x3dcc_cccd;

/// The bit pattern of `100.0`.
pub const DEFAULT_ZFAR: Scalar = 0x42c8_0000;

/// Where the camera is and where it looks: yaw and pitch in radians.
#[derive(Clone, Copy, Debug, PartialEq, Eq)]
pub struct Camera {
    pub position: Vector3,
    pub yaw: Scalar,
    pub pitch: Scalar,
}

/// A perspective projection: aspect ratio, vertical field of view in radians,
/// near and far plane.
#[derive(Clone, Copy, Debug, PartialEq, Eq)]
pub struct Projection {
    pub aspect: Scalar,
    pub fovy: Scalar,
    pub znear: Scalar,
    pub zfar: Scalar,
}

/// A camera with its projection.
#[derive(Clone, Copy, Debug, PartialEq, Eq)]
pub struct CameraBundle {
    pub camera: Camera,
    pub projection: Projection,
}

/// All that the GPU sees of the camera: one matrix for view and projection.
#[derive(Clone, Copy, Debug, PartialEq, Eq)]
pub struct CameraUniform {
    pub view_proj: Mat4,
}

impl Camera {
    /// The camera at the origin with yaw and pitch `0.0`.
    pub open spec fn at_origin() -> Camera {
        Camera { position: Vector3::zero(), yaw: ZERO, pitch: ZERO }
    }

    /// The camera at `position` that looks along `yaw` and `pitch`.
    pub fn new(position: Vector3, yaw: Scalar, pitch: Scalar) -> (camera: Camera)
        ensures
            camera == (Camera { position, yaw, pitch }),
    {
        Camera { position, yaw, pitch }
    }
}

impl Default for Camera {
    fn default() -> (camera: Camera)
        ensures
            camera == Camera::at_origin(),
    {
        Camera { position: Vector3 { x: ZERO, y: ZERO, z: ZERO }, yaw: ZERO, pitch: ZERO }
    }
}

impl Projection {
    /// The projection of a surface 1920 wide and 1080 high, with a field of
    /// view of seventy degrees, from `0.1` to `100.0`.
    pub open spec fn standard() -> Projection {
        Projection {
            aspect: DEFAULT_ASPECT,
            fovy: DEFAULT_FOVY,
            znear: DEFAULT_ZNEAR,
            zfar: DEFAULT_ZFAR,
        }
    }

    /// The projection for a surface `width` wide and `height` high. Its
    /// aspect ratio is what `ratio` gives for the two; a height of zero is
    /// the caller's to avoid.
    pub fn new<R: FnOnce(u32, u32) -> Scalar>(
        width: u32,
        height: u32,
        fovy: Scalar,
        znear: Scalar,
        zfar: Scalar,
        ratio: R,
    ) -> (projection: Projection)
        requires
            ratio.requires((width, height)),
        ensures
            ratio.ensures((width, height), projection.aspect),
            projection.fovy == fovy,
            projection.znear == znear,
            projection.zfar == zfar,
    {
        Projection { aspect: ratio(width, height), fovy, znear, zfar }
    }

    /// Fits the projection to a surface `width` wide and `height` high, both
    /// taken as they are given: its aspect ratio becomes what `ratio` gives
    /// for the two, and nothing else changes. A height of zero is the
    /// caller's to avoid.
    pub fn resize<R: FnOnce(Scalar, Scalar) -> Scalar>(
        &mut self,
        width: Scalar,
        height: Scalar,
        ratio: R,
    )
        requires
            ratio.requires((width, height)),
        ensures
            ratio.ensures((width, height), final(self).aspect),
            final(self).fovy == old(self).fovy,
            final(self).znear == old(self).znear,
            final(self).zfar == old(self).zfar,
    {
        self.aspect = ratio(width, height);
    }
}

impl Default for Projection {
    fn default() -> (projection: Projection)
        ensures
            projection == Projection::standard(),
    {
        Projection {
            aspect: DEFAULT_ASPECT,
            fovy: DEFAULT_FOVY,
            znear: DEFAULT_ZNEAR,
            zfar: DEFAULT_ZFAR,
        }
    }
}

impl CameraBundle {
    /// The same camera and projection at aspect ratio `aspect`.
    pub open spec fn with_aspect(self, aspect: Scalar) -> CameraBundle {
        CameraBundle { projection: Projection { aspect, ..self.projection }, ..self }
    }

    /// The camera at the origin with the standard projection.
    pub open spec fn standard() -> CameraBundle {
        CameraBundle { camera: Camera::at_origin(), projection: Projection::standard() }
    }
}

impl Default for CameraBundle {
    fn default() -> (bundle: CameraBundle)
        ensures
            bundle == CameraBundle::standard(),
    {
        CameraBundle { camera: Camera::default(), projection: Projection::default() }
    }
}

impl CameraUniform {
    /// The uniform that holds the identity matrix.
    pub fn new() -> (uniform: CameraUniform)
        ensures
            uniform.view_proj == identity_matrix(),
    {
        CameraUniform { view_proj: mat4_identity() }
    }

    /// Sets the uniform to the matrix that `view_proj` gives for the camera
    /// and its projection.
    pub fn update_view_proj<V: FnOnce(&CameraBundle) -> Mat4>(
        &mut self,
        camera_bundle: &CameraBundle,
        view_proj: V,
    )
        requires
            view_proj.requires((camera_bundle,)),
        ensures
            view_proj.ensures((camera_bundle,), final(self).view_proj),
    {
        self.view_proj = view_proj(camera_bundle);
    }

    /// The sixteen scalars of the uniform, column after column.
    pub open spec fn words(self) -> Seq<u32> {
        matrix_words(self.view_proj)
    }

    /// The contents of the camera's uniform buffer: the memory image of the
    /// matrix, `CAMERA_UNIFORM_SIZE` bytes.
    pub fn to_bytes(&self) -> (bytes: Vec<u8>)
        ensures
            is_memory_image(bytes@, self.words()),
            bytes@.len() == CAMERA_UNIFORM_SIZE,
    {
        let mut words: Vec<u32> = Vec::new();
        append_words(&mut words, self.view_proj[0].as_slice());
        append_words(&mut words, self.view_proj[1].as_slice());
        append_words(&mut words, self.view_proj[2].as_slice());
        append_words(&mut words, self.view_proj[3].as_slice());
        words_to_bytes(&words)
    }
}

impl Default for CameraUniform {
    fn default() -> (uniform: CameraUniform)
        ensures
            uniform.view_proj == identity_matrix(),
    {
        CameraUniform::new()
    }
}

} // verus!
