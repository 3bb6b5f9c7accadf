//! Per-frame orchestration: the one owner of the scene's lights, instances
//! and the CPU mirrors of the GPU-visible light and shadow buffers.
//!
//! A frame runs in strict order: light motion is applied, every moved light's
//! shadow camera is recomputed in the same step, the refreshed buffer records
//! are queued for upload, and only then are the draw passes planned — every
//! shadow pass before the main pass. The orchestrator never hands out a plan
//! in which a shadow camera lags behind its light, and its buffer mirrors are
//! consistent with light state at every public boundary.

use vstd::prelude::*;

verus! {

use crate::Error;
use crate::light::Light;
use crate::light::LightRecord;
use crate::light::record_of;
use crate::math::Vec3;
use crate::projection::Projection;
use crate::projection::ViewProjection;
use crate::scene::Instance;
use crate::scene::Model;
use crate::shadow::shadow_updated;

/// One light's motion for a frame: a new position and, for spotlights, a new
/// facing direction; an omitted field leaves the prior value in force.
#[derive(Clone, Copy, Debug)]
pub struct LightMove {
    /// Slot of the light to move.
    pub light: usize,
    pub new_position: Option<Vec3>,
    pub new_direction: Option<Vec3>,
}

/// A buffer write the host must perform before any draw of the same frame.
#[derive(Clone, Copy, Debug, PartialEq, Eq, Structural)]
pub enum UploadCommand {
    /// Write `record` into the light buffer at `slot`.
    LightSlot { slot: u64, record: LightRecord },
    /// Write `uniform` into the shadow uniform buffer at `slot`.
    ShadowUniform { slot: u64, uniform: ViewProjection },
}

/// A draw submission of a frame.
#[derive(Clone, Copy, Debug, PartialEq, Eq, Structural)]
pub enum DrawCommand {
    /// Render scene depth from the shadow camera of light `slot` into its
    /// depth target.
    ShadowPass { slot: u64 },
    /// Render the colour pass from the viewer camera, sampling every shadow
    /// depth target and every light buffer slot.
    MainPass,
}

/// The plan for one frame: every upload, then every draw. The host must
/// complete (and confirm) the uploads before issuing the draws.
#[derive(Debug)]
pub struct FramePlan {
    pub uploads: Vec<UploadCommand>,
    pub draws: Vec<DrawCommand>,
}

/// The move's vectors are in range.
pub open spec fn move_wf(m: LightMove) -> bool {
    &&& (m.new_position matches Some(p) ==> p.wf())
    &&& (m.new_direction matches Some(d) ==> d.wf())
}

/// A frame's moves are acceptable: every slot exists, every vector is in
/// range, and no light is moved twice — two writers of one light within a
/// frame is a logic error.
pub open spec fn moves_ok(nlights: int, moves: Seq<LightMove>) -> bool {
    &&& forall|j: int|
        0 <= j < moves.len() ==> (#[trigger] moves[j]).light < nlights && move_wf(moves[j])
    &&& forall|a: int, b: int|
        0 <= a < b < moves.len() ==> (#[trigger] moves[a]).light != (#[trigger] moves[b]).light
}

/// The light after one move: the position is adopted if supplied, and the
/// owned shadow map is updated with the same request in the same step.
pub open spec fn apply_move(l: Light, m: LightMove) -> Light {
    Light {
        position: match m.new_position {
            Some(p) => p,
            None => l.position,
        },
        shadow: shadow_updated(l.shadow, m.new_position, m.new_direction),
        ..l
    }
}

/// Light `i` is moved by one of the first `k` moves.
pub open spec fn moved_by(moves: Seq<LightMove>, k: int, i: int) -> bool {
    exists|j: int| 0 <= j < k && (#[trigger] moves[j]).light as int == i
}

/// The scene composition an orchestrator accepts: slot identities line up
/// with positions, every light is valid, every instance references a model
/// that exists, and the viewer projection is valid.
pub open spec fn composition_valid(
    models: Seq<Model>,
    scenery: Seq<Instance>,
    lights: Seq<Light>,
    markers: Seq<Instance>,
    viewer: Projection,
) -> bool {
    &&& viewer.wf()
    &&& forall|i: int| 0 <= i < models.len() ==> (#[trigger] models[i]).index == i
    &&& forall|i: int|
        0 <= i < lights.len() ==> (#[trigger] lights[i]).index == i
            && lights[i].shadow.light_index == i && lights[i].wf()
    &&& forall|i: int| 0 <= i < scenery.len() ==> ((#[trigger] scenery[i]).model as int) < models.len()
    &&& forall|i: int| 0 <= i < markers.len() ==> ((#[trigger] markers[i]).model as int) < models.len()
}

/// The owner of the scene: shared models, static scenery instances, lights,
/// light-marker instances, the viewer projection, and the CPU mirrors of the
/// GPU light and shadow buffers.
#[derive(Debug)]
pub struct Orchestrator {
    pub models: Vec<Model>,
    pub scenery: Vec<Instance>,
    pub lights: Vec<Light>,
    pub markers: Vec<Instance>,
    pub viewer: Projection,
    /// CPU mirror of the GPU light buffer, one record per light slot.
    pub light_slots: Vec<LightRecord>,
    /// CPU mirror of the shadow uniform buffer, one record per light slot.
    pub shadow_slots: Vec<ViewProjection>,
}

impl Orchestrator {
    /// The standing invariant: the composition is valid and both buffer
    /// mirrors agree with the lights they mirror — slot by slot, at every
    /// public boundary.
    pub open spec fn wf(self) -> bool {
        &&& composition_valid(self.models@, self.scenery@, self.lights@, self.markers@, self.viewer)
        &&& self.light_slots@.len() == self.lights@.len()
        &&& self.shadow_slots@.len() == self.lights@.len()
        &&& forall|i: int|
            0 <= i < self.lights@.len() ==> self.light_slots@[i] == record_of(
                #[trigger] self.lights@[i],
            )
        &&& forall|i: int|
            0 <= i < self.lights@.len() ==> self.shadow_slots@[i] == (
            #[trigger] self.lights@[i]).shadow.uniform_spec()
    }

    /// Adopt a composed scene, checking it, and build the initial buffer
    /// mirrors; a composition whose slot identities, references or parameters
    /// are off is a caller bug and is rejected whole.
    pub fn new(
        models: Vec<Model>,
        scenery: Vec<Instance>,
        lights: Vec<Light>,
        markers: Vec<Instance>,
        viewer: Projection,
    ) -> (r: Result<Orchestrator, Error>)
        ensures
            r matches Ok(o) ==> composition_valid(models@, scenery@, lights@, markers@, viewer)
                && o.wf() && o.models@ == models@ && o.scenery@ == scenery@ && o.lights@ == lights@
                && o.markers@ == markers@ && o.viewer == viewer,
            r matches Err(e) ==> e == Error::InvalidParameter && !composition_valid(
                models@,
                scenery@,
                lights@,
                markers@,
                viewer,
            ),
            composition_valid(models@, scenery@, lights@, markers@, viewer) ==> r is Ok,
    {
        if !viewer.check_wf() {
            return Err(Error::InvalidParameter);
        }
        let mut i: usize = 0;
        while i < models.len()
            invariant
                i <= models@.len(),
                forall|j: int| 0 <= j < i ==> (#[trigger] models@[j]).index == j,
            decreases models@.len() - i,
        {
            if models[i].index != i as u64 {
                return Err(Error::InvalidParameter);
            }
            i += 1;
        }
        let mut i: usize = 0;
        while i < lights.len()
            invariant
                i <= lights@.len(),
                forall|j: int|
                    0 <= j < i ==> (#[trigger] lights@[j]).index == j
                        && lights@[j].shadow.light_index == j && lights@[j].wf(),
            decreases lights@.len() - i,
        {
            if lights[i].index != i as u64 || lights[i].shadow.light_index != i as u64
                || !lights[i].check_wf() {
                return Err(Error::InvalidParameter);
            }
            i += 1;
        }
        let mut i: usize = 0;
        while i < scenery.len()
            invariant
                i <= scenery@.len(),
                forall|j: int| 0 <= j < i ==> ((#[trigger] scenery@[j]).model as int) < models@.len(),
            decreases scenery@.len() - i,
        {
            if scenery[i].model >= models.len() as u64 {
                return Err(Error::InvalidParameter);
            }
            i += 1;
        }
        let mut i: usize = 0;
        while i < markers.len()
            invariant
                i <= markers@.len(),
                forall|j: int| 0 <= j < i ==> ((#[trigger] markers@[j]).model as int) < models@.len(),
            decreases markers@.len() - i,
        {
            if markers[i].model >= models.len() as u64 {
                return Err(Error::InvalidParameter);
            }
            i += 1;
        }
        let mut light_slots: Vec<LightRecord> = Vec::new();
        let mut shadow_slots: Vec<ViewProjection> = Vec::new();
        let mut i: usize = 0;
        while i < lights.len()
            invariant
                i <= lights@.len(),
                light_slots@.len() == i,
                shadow_slots@.len() == i,
                forall|j: int| 0 <= j < i ==> light_slots@[j] == record_of(#[trigger] lights@[j]),
                forall|j: int|
                    0 <= j < i ==> shadow_slots@[j] == (#[trigger] lights@[j]).shadow.uniform_spec(),
            decreases lights@.len() - i,
        {
            light_slots.push(lights[i].to_record());
            shadow_slots.push(lights[i].shadow.uniform());
            i += 1;
        }
        Ok(Orchestrator { models, scenery, lights, markers, viewer, light_slots, shadow_slots })
    }

    /// Run the update and planning half of one frame, in strict order: apply
    /// every light move, recompute each moved light's shadow camera in the
    /// same step, queue the refreshed buffer records for upload, and plan
    /// every shadow pass followed by the main pass. No moved light's shadow
    /// update is skipped, and unmoved lights are untouched.
    #[verifier::loop_isolation(false)]
    #[verifier::rlimit(60)]
    pub fn frame(&mut self, moves: &Vec<LightMove>) -> (r: Result<FramePlan, Error>)
        requires
            old(self).wf(),
        ensures
            final(self).wf(),
            final(self).models@ == old(self).models@,
            final(self).scenery@ == old(self).scenery@,
            final(self).markers@ == old(self).markers@,
            final(self).viewer == old(self).viewer,
            final(self).lights@.len() == old(self).lights@.len(),
            r matches Err(e) ==> e == Error::InvalidParameter && !moves_ok(
                old(self).lights@.len() as int,
                moves@,
            ) && *final(self) == *old(self),
            moves_ok(old(self).lights@.len() as int, moves@) ==> r is Ok,
            r matches Ok(plan) ==> {
                &&& moves_ok(old(self).lights@.len() as int, moves@)
                &&& forall|j: int|
                    0 <= j < moves@.len() ==> final(self).lights@[(#[trigger] moves@[j]).light as int]
                        == apply_move(old(self).lights@[moves@[j].light as int], moves@[j])
                &&& forall|i: int|
                    0 <= i < old(self).lights@.len() && !moved_by(moves@, moves@.len() as int, i)
                        ==> final(self).lights@[i] == old(self).lights@[i]
                &&& plan.uploads@.len() == 2 * moves@.len()
                &&& forall|j: int|
                    0 <= j < moves@.len() ==> plan.uploads@[2 * j] == (UploadCommand::LightSlot {
                        slot: (#[trigger] moves@[j]).light as u64,
                        record: record_of(final(self).lights@[moves@[j].light as int]),
                    })
                &&& forall|j: int|
                    0 <= j < moves@.len() ==> plan.uploads@[2 * j + 1] == (
                    UploadCommand::ShadowUniform {
                        slot: (#[trigger] moves@[j]).light as u64,
                        uniform: final(self).lights@[moves@[j].light as int].shadow.uniform_spec(),
                    })
                &&& plan.draws@.len() == final(self).lights@.len() + 1
                &&& forall|s: int|
                    0 <= s < final(self).lights@.len() ==> plan.draws@[s] == (
                    DrawCommand::ShadowPass { slot: s as u64 })
                &&& plan.draws@[plan.draws@.len() - 1] == DrawCommand::MainPass
            },
    {
        let nlights = self.lights.len();
        let mut j: usize = 0;
        while j < moves.len()
            invariant
                j <= moves@.len(),
                nlights == self.lights@.len(),
                forall|t: int|
                    0 <= t < j ==> ((#[trigger] moves@[t]).light as int) < nlights as int && move_wf(
                        moves@[t],
                    ),
            decreases moves@.len() - j,
        {
            let m = moves[j];
            if m.light >= nlights {
                return Err(Error::InvalidParameter);
            }
            match m.new_position {
                Some(p) => if !p.check_wf() {
                    return Err(Error::InvalidParameter);
                },
                None => (),
            }
            match m.new_direction {
                Some(d) => if !d.check_wf() {
                    return Err(Error::InvalidParameter);
                },
                None => (),
            }
            j += 1;
        }
        let mut a: usize = 0;
        while a < moves.len()
            invariant
                a <= moves@.len(),
                forall|x: int, y: int|
                    0 <= x < y < moves@.len() && x < a ==> (#[trigger] moves@[x]).light != (
                    #[trigger] moves@[y]).light,
            decreases moves@.len() - a,
        {
            let mut b: usize = a + 1;
            while b < moves.len()
                invariant
                    a < b <= moves@.len() || (a + 1 == b && b > moves@.len()),
                    a < moves@.len(),
                    forall|x: int, y: int|
                        0 <= x < y < moves@.len() && x < a ==> (#[trigger] moves@[x]).light != (
                        #[trigger] moves@[y]).light,
                    forall|y: int|
                        a < y < b ==> (#[trigger] moves@[y]).light != moves@[a as int].light,
                decreases moves@.len() - b,
            {
                if moves[a].light == moves[b].light {
                    return Err(Error::InvalidParameter);
                }
                b += 1;
            }
            a += 1;
        }
        let mut uploads: Vec<UploadCommand> = Vec::new();
        let mut k: usize = 0;
        while k < moves.len()
            invariant
                old(self).wf(),
                moves_ok(old(self).lights@.len() as int, moves@),
                k <= moves@.len(),
                self.wf(),
                self.lights@.len() == old(self).lights@.len(),
                self.models@ == old(self).models@,
                self.scenery@ == old(self).scenery@,
                self.markers@ == old(self).markers@,
                self.viewer == old(self).viewer,
                forall|j: int|
                    0 <= j < k ==> self.lights@[(#[trigger] moves@[j]).light as int] == apply_move(
                        old(self).lights@[moves@[j].light as int],
                        moves@[j],
                    ),
                forall|i: int|
                    0 <= i < self.lights@.len() && !moved_by(moves@, k as int, i)
                        ==> self.lights@[i] == old(self).lights@[i],
                uploads@.len() == 2 * k,
                forall|j: int|
                    0 <= j < k ==> uploads@[2 * j] == (UploadCommand::LightSlot {
                        slot: (#[trigger] moves@[j]).light as u64,
                        record: record_of(self.lights@[moves@[j].light as int]),
                    }),
                forall|j: int|
                    0 <= j < k ==> uploads@[2 * j + 1] == (UploadCommand::ShadowUniform {
                        slot: (#[trigger] moves@[j]).light as u64,
                        uniform: self.lights@[moves@[j].light as int].shadow.uniform_spec(),
                    }),
            decreases moves@.len() - k,
        {
            let m = moves[k];
            let i = m.light;
            proof {
                assert forall|j: int| 0 <= j < k implies (#[trigger] moves@[j]).light
                    != m.light by {
                    assert(moves@[j].light != moves@[k as int].light);
                }
                assert(!moved_by(moves@, k as int, i as int));
                assert(self.lights@[i as int] == old(self).lights@[i as int]);
            }
            let mut l = self.lights[i];
            match m.new_position {
                Some(p) => {
                    l.position = p;
                },
                None => (),
            }
            let outcome = l.shadow.update(m.new_position, m.new_direction);
            proof {
                assert(l == apply_move(old(self).lights@[i as int], m));
            }
            let rec = l.to_record();
            self.lights.set(i, l);
            self.light_slots.set(i, rec);
            self.shadow_slots.set(i, outcome.uniform);
            uploads.push(UploadCommand::LightSlot { slot: i as u64, record: rec });
            uploads.push(UploadCommand::ShadowUniform { slot: i as u64, uniform: outcome.uniform });
            k += 1;
            proof {
                assert forall|i2: int|
                    0 <= i2 < self.lights@.len() && !moved_by(moves@, k as int, i2) implies
                    self.lights@[i2] == old(self).lights@[i2] by {
                    assert(!moved_by(moves@, (k - 1) as int, i2)) by {
                        if moved_by(moves@, (k - 1) as int, i2) {
                            let w = choose|j: int|
                                0 <= j < (k - 1) as int && (#[trigger] moves@[j]).light as int
                                    == i2;
                            assert(0 <= w < k as int && moves@[w].light as int == i2);
                        }
                    }
                    assert(moves@[(k - 1) as int].light as int != i2);
                }
            }
        }
        let mut draws: Vec<DrawCommand> = Vec::new();
        let mut s: usize = 0;
        while s < nlights
            invariant
                nlights == self.lights@.len(),
                s <= nlights,
                draws@.len() == s,
                forall|t: int|
                    0 <= t < s ==> draws@[t] == (DrawCommand::ShadowPass { slot: t as u64 }),
            decreases nlights - s,
        {
            draws.push(DrawCommand::ShadowPass { slot: s as u64 });
            s += 1;
        }
        draws.push(DrawCommand::MainPass);
        Ok(FramePlan { uploads, draws })
    }

    /// Adopt a new viewport size: only the viewer projection's aspect ratio
    /// changes; the shadow maps' projections are independent of the viewport
    /// and are untouched, as is every light, instance and buffer mirror. A
    /// zero dimension is rejected and changes nothing.
    pub fn resize(&mut self, width: u32, height: u32) -> (r: Result<(), Error>)
        requires
            old(self).wf(),
        ensures
            final(self).wf(),
            width == 0 || height == 0 ==> (r matches Err(e) && e == Error::InvalidParameter)
                && *final(self) == *old(self),
            width > 0 && height > 0 ==> r is Ok && final(self).viewer == (Projection {
                width,
                height,
                ..old(self).viewer
            }),
            final(self).viewer.znear == old(self).viewer.znear,
            final(self).viewer.zfar == old(self).viewer.zfar,
            final(self).viewer.fovy_mdeg == old(self).viewer.fovy_mdeg,
            final(self).lights@ == old(self).lights@,
            final(self).models@ == old(self).models@,
            final(self).scenery@ == old(self).scenery@,
            final(self).markers@ == old(self).markers@,
            final(self).light_slots@ == old(self).light_slots@,
            final(self).shadow_slots@ == old(self).shadow_slots@,
    {
        self.viewer.resize(width, height)
    }

    /// Move one scenery instance. Only that instance's position changes:
    /// every other instance, every shared model's data, every light and both
    /// buffer mirrors are untouched. A slot that does not exist is rejected.
    pub fn set_scenery_position(&mut self, i: usize, p: Vec3) -> (r: Result<(), Error>)
        requires
            old(self).wf(),
        ensures
            final(self).wf(),
            i >= old(self).scenery@.len() ==> (r matches Err(e) && e == Error::InvalidParameter)
                && *final(self) == *old(self),
            i < old(self).scenery@.len() ==> {
                &&& r is Ok
                &&& final(self).scenery@.len() == old(self).scenery@.len()
                &&& final(self).scenery@[i as int].position == p
                &&& final(self).scenery@[i as int].model == old(self).scenery@[i as int].model
                &&& final(self).scenery@[i as int].name == old(self).scenery@[i as int].name
                &&& final(self).scenery@[i as int].rotation == old(self).scenery@[i as int].rotation
                &&& final(self).scenery@[i as int].scale == old(self).scenery@[i as int].scale
                &&& forall|j: int|
                    0 <= j < old(self).scenery@.len() && j != i ==> final(self).scenery@[j] == old(
                        self,
                    ).scenery@[j]
            },
            final(self).models@ == old(self).models@,
            final(self).lights@ == old(self).lights@,
            final(self).markers@ == old(self).markers@,
            final(self).viewer == old(self).viewer,
            final(self).light_slots@ == old(self).light_slots@,
            final(self).shadow_slots@ == old(self).shadow_slots@,
    {
        if i >= self.scenery.len() {
            return Err(Error::InvalidParameter);
        }
        let mut inst = self.scenery.remove(i);
        inst.set_position(p);
        self.scenery.insert(i, inst);
        proof {
            assert forall|j: int|
                0 <= j < old(self).scenery@.len() && j != i implies self.scenery@[j] == old(
                self,
            ).scenery@[j] by {
                if j < i {
                } else {
                    assert(self.scenery@[j] == old(self).scenery@.remove(i as int)[j - 1]);
                }
            }
        }
        Ok(())
    }
}

/// Decide, after the host performed a frame's upload commands, whether its
/// draws may be issued: every write must have completed, and any failure
/// aborts the frame with `UploadFailure` so that no draw ever reads partially
/// updated light or shadow state.
pub fn confirm_uploads(results: &Vec<bool>) -> (r: Result<(), Error>)
    ensures
        r is Ok <==> forall|i: int| 0 <= i < results@.len() ==> results@[i],
        r matches Err(e) ==> e == Error::UploadFailure,
{
    let mut i: usize = 0;
    while i < results.len()
        invariant
            i <= results@.len(),
            forall|j: int| 0 <= j < i ==> results@[j],
        decreases results@.len() - i,
    {
        if !results[i] {
            return Err(Error::UploadFailure);
        }
        i += 1;
    }
    Ok(())
}

} // verus!
