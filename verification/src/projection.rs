//! The shadow and viewer camera projection: field of view, aspect ratio and
//! clip planes, and the record a view-projection matrix is evaluated from.
//!
//! Angles are fixed-point thousandths of a degree; clip distances are
//! fixed-point thousandths of a world unit. The record returned by
//! [`Projection::view_projection`] holds exactly the quantities the 4x4
//! matrix is a function of; evaluating them through trigonometry into the
//! rendering backend's floating-point matrix, including the backend's depth
//! range convention, is confined to the rendering host, so backends can be
//! swapped without touching light or shadow logic.

use vstd::prelude::*;

verus! {

use crate::Error;
use crate::math::Vec3;

/// Camera projection parameters.
///
/// Immutable after construction except for the viewport dimensions, which a
/// resize may change.
#[derive(Clone, Copy, Debug, PartialEq, Eq, Structural)]
pub struct Projection {
    /// Viewport width in pixels.
    pub width: u32,
    /// Viewport height in pixels.
    pub height: u32,
    /// Vertical field of view, in thousandths of a degree.
    pub fovy_mdeg: u32,
    /// Near clip plane distance, fixed-point.
    pub znear: i64,
    /// Far clip plane distance, fixed-point.
    pub zfar: i64,
}

/// Everything a view-projection matrix is a function of: the camera placement
/// and the projection parameters in force when it was computed.
#[derive(Clone, Copy, Debug, PartialEq, Eq, Structural)]
pub struct ViewProjection {
    pub eye: Vec3,
    pub direction: Vec3,
    pub width: u32,
    pub height: u32,
    pub fovy_mdeg: u32,
    pub znear: i64,
    pub zfar: i64,
}

impl Projection {
    /// The aspect ratio is positive and the clip planes are ordered.
    pub open spec fn wf(self) -> bool {
        &&& self.width > 0
        &&& self.height > 0
        &&& 0 < self.znear < self.zfar
    }

    /// Whether the parameters make a valid projection.
    pub fn check_wf(&self) -> (b: bool)
        ensures
            b == self.wf(),
    {
        self.width > 0 && self.height > 0 && 0 < self.znear && self.znear < self.zfar
    }

    /// Build a projection; a zero viewport dimension, a non-positive near
    /// plane, or a near plane at or beyond the far plane is a caller bug.
    pub fn new(width: u32, height: u32, fovy_mdeg: u32, znear: i64, zfar: i64) -> (r: Result<
        Projection,
        Error,
    >)
        ensures
            width == 0 || height == 0 || znear <= 0 || znear >= zfar ==> (r matches Err(e)
                && e == Error::InvalidParameter),
            width > 0 && height > 0 && 0 < znear < zfar ==> (r matches Ok(p) && p == (Projection {
                width,
                height,
                fovy_mdeg,
                znear,
                zfar,
            }) && p.wf()),
    {
        if width == 0 || height == 0 || znear <= 0 || znear >= zfar {
            Err(Error::InvalidParameter)
        } else {
            Ok(Projection { width, height, fovy_mdeg, znear, zfar })
        }
    }

    /// Adopt a new viewport size, recomputing only the aspect ratio; the
    /// field of view and clip planes are untouched. A zero dimension is
    /// rejected and leaves the projection unchanged.
    pub fn resize(&mut self, width: u32, height: u32) -> (r: Result<(), Error>)
        ensures
            width == 0 || height == 0 ==> (r matches Err(e) && e == Error::InvalidParameter)
                && *final(self) == *old(self),
            width > 0 && height > 0 ==> r is Ok && *final(self) == (Projection {
                width,
                height,
                ..*old(self)
            }),
            final(self).fovy_mdeg == old(self).fovy_mdeg,
            final(self).znear == old(self).znear,
            final(self).zfar == old(self).zfar,
    {
        if width == 0 || height == 0 {
            Err(Error::InvalidParameter)
        } else {
            self.width = width;
            self.height = height;
            Ok(())
        }
    }

    /// The record the view-projection matrix for camera placement
    /// (`eye`, `direction`) is evaluated from.
    pub open spec fn view_projection_spec(self, eye: Vec3, direction: Vec3) -> ViewProjection {
        ViewProjection {
            eye,
            direction,
            width: self.width,
            height: self.height,
            fovy_mdeg: self.fovy_mdeg,
            znear: self.znear,
            zfar: self.zfar,
        }
    }

    /// Pure: pair the camera placement with the projection parameters; no
    /// state is read or written besides the arguments.
    pub fn view_projection(&self, eye: Vec3, direction: Vec3) -> (vp: ViewProjection)
        ensures
            vp == self.view_projection_spec(eye, direction),
    {
        ViewProjection {
            eye,
            direction,
            width: self.width,
            height: self.height,
            fovy_mdeg: self.fovy_mdeg,
            znear: self.znear,
            zfar: self.zfar,
        }
    }
}

} // verus!
