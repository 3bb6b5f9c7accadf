//! One light's shadow-casting camera: its position, facing direction,
//! per-light update strategy, owned projection and depth target.
//!
//! A sun-style shadow camera always looks from the light toward a fixed
//! anchor point, so its direction is derived anew on every update; a
//! spotlight's shadow camera simply tracks the facing direction the caller
//! supplies.

use vstd::prelude::*;

verus! {

use crate::Error;
use crate::math::COORD_LIMIT;
use crate::math::DIFF_LIMIT;
use crate::math::Vec3;
use crate::math::normalize;
use crate::math::normalize_spec;
use crate::projection::Projection;
use crate::projection::ViewProjection;

/// How a shadow camera's direction is recomputed on update; fixed at
/// construction, exactly one per shadow map.
#[derive(Clone, Copy, Debug, PartialEq, Eq, Structural)]
pub enum Strategy {
    /// The camera always looks from the light toward `anchor`, whatever
    /// direction a caller supplies.
    SunLight { anchor: Vec3 },
    /// The camera faces whatever direction the caller last supplied.
    SpotLight,
}

/// Handle to a host-created GPU depth texture a shadow pass renders into.
#[derive(Clone, Copy, Debug, PartialEq, Eq, Structural)]
pub struct DepthTarget {
    pub id: u64,
}

/// What an update did: whether the request was applied, and the
/// view-projection record to upload for this shadow camera.
#[derive(Clone, Copy, Debug, PartialEq, Eq, Structural)]
pub struct UpdateOutcome {
    /// False only for a sun-strategy update that arrived without a position,
    /// which is a caller contract violation treated as a warned no-op.
    pub applied: bool,
    /// The record of the shadow camera after the update, ready for upload.
    pub uniform: ViewProjection,
}

/// One light's shadow camera state.
#[derive(Clone, Copy, Debug, PartialEq, Eq, Structural)]
pub struct ShadowMap {
    /// The owning light's stable slot identity.
    pub light_index: u64,
    pub position: Vec3,
    pub direction: Vec3,
    /// Depth comparison bias, fixed-point.
    pub bias: i64,
    pub strategy: Strategy,
    pub projection: Projection,
    pub depth_target: DepthTarget,
}

/// The direction a sun-strategy camera faces from `position`: the fixed-point
/// unit vector toward `anchor`. When the light sits exactly on the anchor the
/// direction is degenerate and `prior` is kept.
pub open spec fn sun_direction(anchor: Vec3, position: Vec3, prior: Vec3) -> Vec3 {
    let diff = anchor.spec_sub(position);
    if diff.spec_is_zero() {
        prior
    } else {
        normalize_spec(diff)
    }
}

/// The shadow camera state after an update request.
///
/// Sun strategy: a missing position is a warned no-op; otherwise the position
/// is adopted and the direction is derived from the anchor, ignoring any
/// supplied direction. Spot strategy: each of position and direction is
/// adopted if supplied, else retained.
pub open spec fn shadow_updated(s: ShadowMap, new_position: Option<Vec3>, new_direction: Option<
    Vec3,
>) -> ShadowMap {
    match s.strategy {
        Strategy::SunLight { anchor } => match new_position {
            None => s,
            Some(p) => ShadowMap {
                position: p,
                direction: sun_direction(anchor, p, s.direction),
                ..s
            },
        },
        Strategy::SpotLight => ShadowMap {
            position: match new_position {
                Some(p) => p,
                None => s.position,
            },
            direction: match new_direction {
                Some(d) => d,
                None => s.direction,
            },
            ..s
        },
    }
}

impl ShadowMap {
    /// Position, direction and any anchor are in range, and the projection is
    /// valid.
    pub open spec fn wf(self) -> bool {
        &&& self.position.wf()
        &&& self.direction.wf()
        &&& self.projection.wf()
        &&& (self.strategy matches Strategy::SunLight { anchor } ==> anchor.wf())
    }

    /// The record to upload for this shadow camera's current state.
    pub open spec fn uniform_spec(self) -> ViewProjection {
        self.projection.view_projection_spec(self.position, self.direction)
    }

    /// Whether position, direction, anchor and projection are all in range.
    pub fn check_wf(&self) -> (b: bool)
        ensures
            b == self.wf(),
    {
        let anchor_ok = match self.strategy {
            Strategy::SunLight { anchor } => anchor.check_wf(),
            Strategy::SpotLight => true,
        };
        self.position.check_wf() && self.direction.check_wf() && self.projection.check_wf()
            && anchor_ok
    }

    /// The record to upload for this shadow camera's current state.
    pub fn uniform(&self) -> (u: ViewProjection)
        ensures
            u == self.uniform_spec(),
    {
        self.projection.view_projection(self.position, self.direction)
    }

    /// Store the initial state around a host-created depth target; a host
    /// that could not create one hands `None` and the construction fails.
    pub fn new(
        light_index: u64,
        position: Vec3,
        direction: Vec3,
        bias: i64,
        strategy: Strategy,
        projection: Projection,
        depth_target: Option<DepthTarget>,
    ) -> (r: Result<ShadowMap, Error>)
        requires
            position.wf(),
            direction.wf(),
            projection.wf(),
            strategy matches Strategy::SunLight { anchor } ==> anchor.wf(),
        ensures
            depth_target is None ==> (r matches Err(e) && e == Error::ResourceAllocationError),
            depth_target matches Some(dt) ==> (r matches Ok(s) && s == (ShadowMap {
                light_index,
                position,
                direction,
                bias,
                strategy,
                projection,
                depth_target: dt,
            }) && s.wf()),
    {
        match depth_target {
            None => Err(Error::ResourceAllocationError),
            Some(dt) => Ok(
                ShadowMap {
                    light_index,
                    position,
                    direction,
                    bias,
                    strategy,
                    projection,
                    depth_target: dt,
                },
            ),
        }
    }

    /// Apply an update request and return the view-projection record to
    /// upload for the resolved state.
    ///
    /// Sun strategy: the direction becomes the fixed-point unit vector of
    /// `anchor - position`, independent of any previously cached direction
    /// and of any supplied one; a request without a position is a warned
    /// no-op, not an error. Spot strategy: a supplied position or direction
    /// is adopted, an omitted one is retained unchanged.
    pub fn update(&mut self, new_position: Option<Vec3>, new_direction: Option<Vec3>) -> (o:
        UpdateOutcome)
        requires
            old(self).wf(),
            new_position matches Some(p) ==> p.wf(),
            new_direction matches Some(d) ==> d.wf(),
        ensures
            *final(self) == shadow_updated(*old(self), new_position, new_direction),
            final(self).wf(),
            o.applied == !(old(self).strategy is SunLight && new_position is None),
            o.uniform == final(self).uniform_spec(),
            match old(self).strategy {
                Strategy::SunLight { anchor } => match new_position {
                    Some(p) => !anchor.spec_sub(p).spec_is_zero() ==> final(self).direction
                        == normalize_spec(anchor.spec_sub(p)),
                    None => true,
                },
                Strategy::SpotLight => match new_direction {
                    Some(d) => final(self).direction == d,
                    None => final(self).direction == old(self).direction,
                },
            },
    {
        let applied: bool;
        match self.strategy {
            Strategy::SunLight { anchor } => {
                match new_position {
                    None => {
                        applied = false;
                    },
                    Some(p) => {
                        self.position = p;
                        let diff = anchor.sub(&p);
                        if !diff.is_zero() {
                            self.direction = normalize(&diff);
                        }
                        applied = true;
                    },
                }
            },
            Strategy::SpotLight => {
                match new_position {
                    Some(p) => {
                        self.position = p;
                    },
                    None => {},
                }
                match new_direction {
                    Some(d) => {
                        self.direction = d;
                    },
                    None => {},
                }
                applied = true;
            },
        }
        let uniform = self.projection.view_projection(self.position, self.direction);
        UpdateOutcome { applied, uniform }
    }
}

/// Law: a sun-strategy camera's derived direction does not depend on the
/// direction cached before the update, except in the degenerate case where
/// the light sits exactly on its anchor.
pub proof fn lemma_sun_direction_ignores_prior(anchor: Vec3, position: Vec3, prior_a: Vec3,
    prior_b: Vec3)
    requires
        !anchor.spec_sub(position).spec_is_zero(),
    ensures
        sun_direction(anchor, position, prior_a) == sun_direction(anchor, position, prior_b),
{
}

/// Law: after two successive sun-strategy updates the camera's direction is
/// determined by the latest position alone; shadows never lag a frame behind
/// light motion.
pub proof fn lemma_sun_update_no_lag(
    s: ShadowMap,
    p1: Vec3,
    p2: Vec3,
    d1: Option<Vec3>,
    d2: Option<Vec3>,
    anchor: Vec3,
)
    requires
        s.strategy == (Strategy::SunLight { anchor }),
        !anchor.spec_sub(p2).spec_is_zero(),
    ensures
        shadow_updated(shadow_updated(s, Some(p1), d1), Some(p2), d2).direction == normalize_spec(
            anchor.spec_sub(p2),
        ),
        shadow_updated(shadow_updated(s, Some(p1), d1), Some(p2), d2).direction == shadow_updated(
            s,
            Some(p2),
            d2,
        ).direction,
{
}

} // verus!
