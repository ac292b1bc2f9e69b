//! The orbit camera.
//!
//! The camera looks at the origin from `distance` units away. `azimuth` turns
//! it about the world's vertical axis and `incline` tilts it, both in degrees.
//! Its view-projection matrix is worked out by [`Camera::update`] and stays as
//! it is until the next call.

use vstd::prelude::*;
use crate::matrix::Angle;
use crate::matrix::Matrix;
use crate::scalar::Scalar;
use crate::scalar::Vec3;

verus! {

/// The field of view that a camera starts with, in millionths of a degree.
pub const DEFAULT_FOV: i64 = 45_000_000;

/// The width over height that a camera starts with, in millionths.
pub const DEFAULT_ASPECT: i64 = 1_330_000;

/// The near clip distance of a camera, in millionths.
pub const DEFAULT_NEAR_CLIP: i64 = 100_000;

/// The far clip distance of a camera, in millionths.
pub const DEFAULT_FAR_CLIP: i64 = 100_000_000;

/// The distance that a camera starts at and is reset to, in millionths.
pub const DEFAULT_DISTANCE: i64 = 10_000_000;

/// The azimuth that a camera starts at and is reset to, in millionths of a
/// degree.
pub const DEFAULT_AZIMUTH: i64 = 0;

/// The incline that a camera starts at and is reset to, in millionths of a
/// degree.
pub const DEFAULT_INCLINE: i64 = 20_000_000;

/// Where the camera stands in the world: moved back from the origin by
/// `distance` along its line of sight, tilted about the x axis by the
/// negated incline, and turned about the vertical axis by the negated
/// azimuth.
pub open spec fn orbit_world(distance: Scalar, azimuth: Scalar, incline: Scalar) -> Matrix {
    Matrix::spec_product(
        Matrix::spec_product(
            Matrix::Rotation {
                angle: Angle::Degrees(azimuth.negated()),
                axis: Vec3::units(0, 1, 0),
            },
            Matrix::Rotation {
                angle: Angle::Degrees(incline.negated()),
                axis: Vec3::units(1, 0, 0),
            },
        ),
        Matrix::Translation(Vec3 { x: Scalar { micros: 0 }, y: Scalar { micros: 0 }, z: distance }),
    )
}

/// The mathematical value of a [`Camera`].
pub struct CameraState {
    pub fov: Scalar,
    pub aspect: Scalar,
    pub near_clip: Scalar,
    pub far_clip: Scalar,
    pub distance: Scalar,
    pub azimuth: Scalar,
    pub incline: Scalar,
    pub view_proj_mat: Matrix,
}

impl CameraState {
    /// The camera that [`Camera::new`] makes.
    pub open spec fn initial() -> CameraState {
        CameraState {
            fov: Scalar { micros: 45_000_000 },
            aspect: Scalar { micros: 1_330_000 },
            near_clip: Scalar { micros: 100_000 },
            far_clip: Scalar { micros: 100_000_000 },
            distance: Scalar { micros: 10_000_000 },
            azimuth: Scalar { micros: 0 },
            incline: Scalar { micros: 20_000_000 },
            view_proj_mat: Matrix::Identity,
        }
    }

    /// The view-projection matrix that belongs to the camera's settings: the
    /// perspective projection times the inverse of where the camera stands.
    pub open spec fn view_projection(self) -> Matrix {
        Matrix::spec_product(
            Matrix::Perspective {
                aspect: self.aspect,
                fovy: Angle::Degrees(self.fov),
                near: self.near_clip,
                far: self.far_clip,
            },
            Matrix::spec_inverse(orbit_world(self.distance, self.azimuth, self.incline)),
        )
    }

    /// The camera after [`Camera::update`].
    pub open spec fn updated(self) -> CameraState {
        CameraState { view_proj_mat: self.view_projection(), ..self }
    }

    /// The camera after [`Camera::reset`].
    pub open spec fn reset(self) -> CameraState {
        CameraState {
            distance: Scalar { micros: 10_000_000 },
            azimuth: Scalar { micros: 0 },
            incline: Scalar { micros: 20_000_000 },
            ..self
        }
    }
}

/// An orbit camera.
pub struct Camera {
    fov: Scalar,
    aspect: Scalar,
    near_clip: Scalar,
    far_clip: Scalar,
    distance: Scalar,
    azimuth: Scalar,
    incline: Scalar,
    view_proj_mat: Matrix,
}

impl View for Camera {
    type V = CameraState;

    closed spec fn view(&self) -> CameraState {
        CameraState {
            fov: self.fov,
            aspect: self.aspect,
            near_clip: self.near_clip,
            far_clip: self.far_clip,
            distance: self.distance,
            azimuth: self.azimuth,
            incline: self.incline,
            view_proj_mat: self.view_proj_mat,
        }
    }
}

impl Camera {
    /// A camera with a field of view of 45 degrees, an aspect of 1.33 and
    /// clip distances of 0.1 and 100, which stands 10 units away at an
    /// azimuth of 0 and an incline of 20 degrees. Its matrix is the identity
    /// until the first update.
    pub fn new() -> (camera: Camera)
        ensures
            camera@ == CameraState::initial(),
    {
        Camera {
            fov: Scalar::from_micros(DEFAULT_FOV),
            aspect: Scalar::from_micros(DEFAULT_ASPECT),
            near_clip: Scalar::from_micros(DEFAULT_NEAR_CLIP),
            far_clip: Scalar::from_micros(DEFAULT_FAR_CLIP),
            distance: Scalar::from_micros(DEFAULT_DISTANCE),
            azimuth: Scalar::from_micros(DEFAULT_AZIMUTH),
            incline: Scalar::from_micros(DEFAULT_INCLINE),
            view_proj_mat: Matrix::Identity,
        }
    }

    /// Sets the width over height of the view.
    pub fn set_aspect(&mut self, aspect: Scalar)
        ensures
            final(self)@ == (CameraState { aspect, ..old(self)@ }),
    {
        self.aspect = aspect;
    }

    /// Sets how far from the origin the camera stands.
    pub fn set_distance(&mut self, distance: Scalar)
        ensures
            final(self)@ == (CameraState { distance, ..old(self)@ }),
    {
        self.distance = distance;
    }

    /// Sets the azimuth, in degrees.
    pub fn set_azimuth(&mut self, azimuth: Scalar)
        ensures
            final(self)@ == (CameraState { azimuth, ..old(self)@ }),
    {
        self.azimuth = azimuth;
    }

    /// Sets the incline, in degrees. The camera takes any value: it is for
    /// whoever steers it to keep the incline between -90 and 90.
    pub fn set_incline(&mut self, incline: Scalar)
        ensures
            final(self)@ == (CameraState { incline, ..old(self)@ }),
    {
        self.incline = incline;
    }

    /// How far from the origin the camera stands.
    pub fn get_distance(&self) -> (distance: Scalar)
        ensures
            distance == self@.distance,
    {
        self.distance
    }

    /// The azimuth, in degrees.
    pub fn get_azimuth(&self) -> (azimuth: Scalar)
        ensures
            azimuth == self@.azimuth,
    {
        self.azimuth
    }

    /// The incline, in degrees.
    pub fn get_incline(&self) -> (incline: Scalar)
        ensures
            incline == self@.incline,
    {
        self.incline
    }

    /// The width over height of the view.
    pub fn get_aspect(&self) -> (aspect: Scalar)
        ensures
            aspect == self@.aspect,
    {
        self.aspect
    }

    /// The view-projection matrix as the last update left it.
    pub fn get_view_proj_mat(&self) -> (m: Matrix)
        ensures
            m == self@.view_proj_mat,
    {
        self.view_proj_mat.clone()
    }

    /// Works out the view-projection matrix from the camera's settings.
    pub fn update(&mut self)
        ensures
            final(self)@ == old(self)@.updated(),
    {
        let turn = Matrix::Rotation {
            angle: Angle::Degrees(self.azimuth.neg()),
            axis: Vec3::from_units(0, 1, 0),
        };
        let tilt = Matrix::Rotation {
            angle: Angle::Degrees(self.incline.neg()),
            axis: Vec3::from_units(1, 0, 0),
        };
        let back = Matrix::Translation(Vec3::new(Scalar::zero(), Scalar::zero(), self.distance));
        let world = Matrix::product(Matrix::product(turn, tilt), back);

        let view = Matrix::inverse(world);
        let project = Matrix::Perspective {
            aspect: self.aspect,
            fovy: Angle::Degrees(self.fov),
            near: self.near_clip,
            far: self.far_clip,
        };
        self.view_proj_mat = Matrix::product(project, view);
    }

    /// Puts the camera back to a distance of 10, an azimuth of 0 and an
    /// incline of 20 degrees. The rest stays as it is.
    pub fn reset(&mut self)
        ensures
            final(self)@ == old(self)@.reset(),
    {
        self.distance = Scalar::from_micros(DEFAULT_DISTANCE);
        self.azimuth = Scalar::from_micros(DEFAULT_AZIMUTH);
        self.incline = Scalar::from_micros(DEFAULT_INCLINE);
    }
}

/// Updating a camera a second time, with nothing changed in between, leaves
/// it as the first update did.
pub proof fn lemma_update_idempotent(camera: CameraState)
    ensures
        camera.updated().updated() == camera.updated(),
{
}

/// The matrix that an update leaves depends on the camera's settings alone,
/// not on the matrix it had before.
pub proof fn lemma_update_deterministic(a: CameraState, b: CameraState)
    requires
        a.fov == b.fov,
        a.aspect == b.aspect,
        a.near_clip == b.near_clip,
        a.far_clip == b.far_clip,
        a.distance == b.distance,
        a.azimuth == b.azimuth,
        a.incline == b.incline,
    ensures
        a.updated() == b.updated(),
{
}

} // verus!
