//! The fixed demo scene: one house on the ground, one bulb marker, and three
//! lights — a white orbiting sun-style key light, a yellow downward spotlight
//! over the bulb, and a blue sun-style back light — each with its own shadow
//! map.

use vstd::prelude::*;

verus! {

use crate::Error;
use crate::light::Color;
use crate::light::Light;
use crate::light::SpotParams;
use crate::math::Vec3;
use crate::projection::Projection;
use crate::scene::Instance;
use crate::scene::Model;
use crate::scene::Rotation;
use crate::shadow::DepthTarget;
use crate::shadow::ShadowMap;
use crate::shadow::Strategy;

/// Build the demo scene's instances and lights around two loaded models and
/// three host-created shadow depth targets.
///
/// Fails with `InvalidParameter` exactly when a viewport dimension is zero,
/// and with `ResourceAllocationError` exactly when the host could not create
/// one of the depth targets (a zero viewport is reported first). Returns the
/// static scenery, the lights in slot order, and the light-marker instances.
pub fn compose_scene(
    viewport_width: u32,
    viewport_height: u32,
    house: &Model,
    bulb: &Model,
    key_target: Option<DepthTarget>,
    spot_target: Option<DepthTarget>,
    back_target: Option<DepthTarget>,
) -> (r: Result<(Vec<Instance>, Vec<Light>, Vec<Instance>), Error>)
    ensures
        r is Ok <==> viewport_width > 0 && viewport_height > 0 && key_target is Some && spot_target
            is Some && back_target is Some,
        viewport_width == 0 || viewport_height == 0 ==> (r matches Err(e) && e
            == Error::InvalidParameter),
        viewport_width > 0 && viewport_height > 0 && r is Err ==> (r matches Err(e) && e
            == Error::ResourceAllocationError),
        r matches Ok(scene) ==> {
            &&& scene.1@.len() == 3
            &&& forall|i: int|
                0 <= i < 3 ==> (#[trigger] scene.1@[i]).index == i
                    && scene.1@[i].shadow.light_index == i && scene.1@[i].wf()
            &&& scene.1@[0].position == (Vec3 { x: -5000i64, y: 10000i64, z: 5000i64 })
            &&& scene.1@[0].shadow.position == (Vec3 { x: -5000i64, y: 10000i64, z: 5000i64 })
            &&& scene.1@[0].shadow.strategy == (Strategy::SunLight {
                anchor: Vec3 { x: 0, y: 0, z: 0 },
            })
            &&& scene.1@[0].color == (Color { r: 1000, g: 1000, b: 1000 })
            &&& scene.1@[0].ambient == 400 && scene.1@[0].diffuse == 1000
            &&& scene.1@[0].spot is None
            &&& scene.1@[0].shadow.bias == 500
            &&& scene.1@[0].shadow.projection.fovy_mdeg == 45_000
            &&& scene.1@[1].position == (Vec3 { x: 0, y: 2100, z: 1200 })
            &&& scene.1@[1].shadow.position == (Vec3 { x: 0, y: 2100, z: 1200 })
            &&& scene.1@[1].shadow.strategy == Strategy::SpotLight
            &&& scene.1@[1].shadow.direction == (Vec3 { x: 0i64, y: -1000i64, z: 0i64 })
            &&& scene.1@[1].color == (Color { r: 1000, g: 1000, b: 0 })
            &&& scene.1@[1].ambient == 420
            &&& scene.1@[1].spot == Some(
                SpotParams {
                    intensity: 1000,
                    inner_cos: 990,
                    outer_cos: 850,
                    direction: Vec3 { x: 0i64, y: -1000i64, z: 0i64 },
                },
            )
            &&& scene.1@[1].shadow.bias == 0
            &&& scene.1@[1].shadow.projection.fovy_mdeg == 120_000
            &&& scene.1@[2].position == (Vec3 { x: -5000i64, y: 10000i64, z: -5000i64 })
            &&& scene.1@[2].shadow.strategy == (Strategy::SunLight {
                anchor: Vec3 { x: 0, y: 0, z: 0 },
            })
            &&& scene.1@[2].color == (Color { r: 0, g: 0, b: 1000 })
            &&& scene.1@[2].ambient == 400 && scene.1@[2].diffuse == 1000
            &&& scene.1@[2].spot is None
            &&& scene.0@.len() == 1
            &&& scene.0@[0].model == house.index
            &&& scene.0@[0].name@ == "house2"@
            &&& scene.0@[0].position == (Vec3 { x: 0, y: 0, z: 0 })
            &&& scene.0@[0].scale == 1000
            &&& scene.2@.len() == 1
            &&& scene.2@[0].model == bulb.index
            &&& scene.2@[0].name@ == "bulb"@
            &&& scene.2@[0].position == (Vec3 { x: 0, y: 2080, z: 1200 })
            &&& scene.2@[0].scale == 42
        },
{
    let origin = Vec3 { x: 0, y: 0, z: 0 };
    let pos1 = Vec3 { x: -5000i64, y: 10000i64, z: 5000i64 };
    let pos2 = Vec3 { x: 0, y: 2100, z: 1200 };
    let pos3 = Vec3 { x: -5000i64, y: 10000i64, z: -5000i64 };
    let spot_dir = Vec3 { x: 0i64, y: -1000i64, z: 0i64 };

    let sun_proj = match Projection::new(viewport_width, viewport_height, 45_000, 100, 100_000) {
        Ok(p) => p,
        Err(e) => {
            return Err(e);
        },
    };
    let spot_proj = match Projection::new(viewport_width, viewport_height, 120_000, 100, 100_000) {
        Ok(p) => p,
        Err(e) => {
            return Err(e);
        },
    };

    let key_shadow = match ShadowMap::new(
        0,
        pos1,
        origin,
        500,
        Strategy::SunLight { anchor: origin },
        sun_proj,
        key_target,
    ) {
        Ok(s) => s,
        Err(e) => {
            return Err(e);
        },
    };
    let spot_shadow = match ShadowMap::new(
        1,
        pos2,
        spot_dir,
        0,
        Strategy::SpotLight,
        spot_proj,
        spot_target,
    ) {
        Ok(s) => s,
        Err(e) => {
            return Err(e);
        },
    };
    let back_shadow = match ShadowMap::new(
        2,
        pos3,
        origin,
        500,
        Strategy::SunLight { anchor: origin },
        sun_proj,
        back_target,
    ) {
        Ok(s) => s,
        Err(e) => {
            return Err(e);
        },
    };

    let key_light = Light::new(0, pos1, Color { r: 1000, g: 1000, b: 1000 }, 400, 1000, key_shadow);
    let spot_light = match Light::new_spotlight(
        1,
        pos2,
        Color { r: 1000, g: 1000, b: 0 },
        1000,
        420,
        990,
        850,
        spot_dir,
        spot_shadow,
    ) {
        Ok(l) => l,
        Err(e) => {
            return Err(e);
        },
    };
    let back_light = Light::new(2, pos3, Color { r: 0, g: 0, b: 1000 }, 400, 1000, back_shadow);

    let mut lights: Vec<Light> = Vec::new();
    lights.push(key_light);
    lights.push(spot_light);
    lights.push(back_light);

    let unit_z = Vec3 { x: 0, y: 0, z: 1000 };
    let no_turn = Rotation { axis: unit_z, angle_mdeg: 0 };
    let house_i = house.instantiate("house2".to_owned(), origin, no_turn, 1000);
    let bulb_i = bulb.instantiate(
        "bulb".to_owned(),
        Vec3 { x: 0, y: 2080, z: 1200 },
        no_turn,
        42,
    );

    let mut scenery: Vec<Instance> = Vec::new();
    scenery.push(house_i);
    let mut markers: Vec<Instance> = Vec::new();
    markers.push(bulb_i);

    Ok((scenery, lights, markers))
}

} // verus!
