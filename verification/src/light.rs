//! A positioned light: point/sun-style or spotlight, with its colour,
//! intensities, optional cone parameters and its owned shadow map.
//!
//! A light's `index` is its stable slot identity in the GPU light buffer;
//! shaders address lights by that slot, so it never changes after
//! construction.

use vstd::prelude::*;

verus! {

use crate::Error;
use crate::math::Vec3;
use crate::shadow::ShadowMap;

/// A linear RGB colour, fixed-point thousandths per channel.
#[derive(Clone, Copy, Debug, PartialEq, Eq, Structural)]
pub struct Color {
    pub r: i64,
    pub g: i64,
    pub b: i64,
}

/// The cone parameters a spotlight carries beyond a point light.
///
/// The cosines are of the cone half-angles, fixed-point; a larger cosine
/// means a narrower cone, so the inner cosine is never below the outer one.
#[derive(Clone, Copy, Debug, PartialEq, Eq, Structural)]
pub struct SpotParams {
    pub intensity: i64,
    pub inner_cos: i64,
    pub outer_cos: i64,
    pub direction: Vec3,
}

/// A light source and its shadow state. The orchestrator is the only writer
/// of a light within a frame; after mutating the position it must update the
/// owned shadow map in the same frame, since the two are not
/// auto-synchronised.
#[derive(Clone, Copy, Debug, PartialEq, Eq, Structural)]
pub struct Light {
    /// Stable slot identity in the GPU light buffer.
    pub index: u64,
    pub position: Vec3,
    pub color: Color,
    /// Ambient intensity, fixed-point.
    pub ambient: i64,
    /// Diffuse intensity, fixed-point; a spotlight carries its contribution
    /// in its spot intensity instead and stores zero here.
    pub diffuse: i64,
    /// Cone parameters, present exactly for spotlights.
    pub spot: Option<SpotParams>,
    pub shadow: ShadowMap,
}

/// The GPU-visible mirror of one light: the record uploaded to the light's
/// buffer slot.
#[derive(Clone, Copy, Debug, PartialEq, Eq, Structural)]
pub struct LightRecord {
    pub position: Vec3,
    pub color: Color,
    pub ambient: i64,
    pub diffuse: i64,
    pub spot: Option<SpotParams>,
}

/// The buffer record for a light's current state.
pub open spec fn record_of(l: Light) -> LightRecord {
    LightRecord {
        position: l.position,
        color: l.color,
        ambient: l.ambient,
        diffuse: l.diffuse,
        spot: l.spot,
    }
}

impl Light {
    /// Position is in range, the shadow map is valid, and a spotlight's cone
    /// is ordered with an in-range facing direction.
    pub open spec fn wf(self) -> bool {
        &&& self.position.wf()
        &&& self.shadow.wf()
        &&& (self.spot matches Some(s) ==> s.inner_cos >= s.outer_cos && s.direction.wf())
    }

    /// Whether the light's position, shadow map and any cone parameters are
    /// valid.
    pub fn check_wf(&self) -> (b: bool)
        ensures
            b == self.wf(),
    {
        let spot_ok = match self.spot {
            Some(s) => s.inner_cos >= s.outer_cos && s.direction.check_wf(),
            None => true,
        };
        self.position.check_wf() && self.shadow.check_wf() && spot_ok
    }

    /// Build the mirror record for this light's current state.
    pub fn to_record(&self) -> (r: LightRecord)
        ensures
            r == record_of(*self),
    {
        LightRecord {
            position: self.position,
            color: self.color,
            ambient: self.ambient,
            diffuse: self.diffuse,
            spot: self.spot,
        }
    }

    /// A point/sun-style light.
    pub fn new(
        index: u64,
        position: Vec3,
        color: Color,
        ambient: i64,
        diffuse: i64,
        shadow: ShadowMap,
    ) -> (l: Light)
        requires
            position.wf(),
            shadow.wf(),
        ensures
            l == (Light { index, position, color, ambient, diffuse, spot: None, shadow }),
            l.wf(),
    {
        Light { index, position, color, ambient, diffuse, spot: None, shadow }
    }

    /// A spotlight. The cosines are of half-angles, so the inner one must be
    /// at least the outer one; any pair violating that ordering is rejected
    /// with `InvalidParameter`, and no other input is.
    pub fn new_spotlight(
        index: u64,
        position: Vec3,
        color: Color,
        intensity: i64,
        ambient: i64,
        inner_cos: i64,
        outer_cos: i64,
        direction: Vec3,
        shadow: ShadowMap,
    ) -> (r: Result<Light, Error>)
        requires
            position.wf(),
            direction.wf(),
            shadow.wf(),
        ensures
            inner_cos < outer_cos <==> (r matches Err(e) && e == Error::InvalidParameter),
            inner_cos >= outer_cos ==> (r matches Ok(l) && l == (Light {
                index,
                position,
                color,
                ambient,
                diffuse: 0,
                spot: Some(SpotParams { intensity, inner_cos, outer_cos, direction }),
                shadow,
            }) && l.wf()),
    {
        if inner_cos < outer_cos {
            Err(Error::InvalidParameter)
        } else {
            Ok(
                Light {
                    index,
                    position,
                    color,
                    ambient,
                    diffuse: 0,
                    spot: Some(SpotParams { intensity, inner_cos, outer_cos, direction }),
                    shadow,
                },
            )
        }
    }
}

} // verus!
