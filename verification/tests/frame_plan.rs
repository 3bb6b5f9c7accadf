use shadow_scene::compose::compose_scene;
use shadow_scene::light::LightRecord;
use shadow_scene::math::{isqrt, normalize, Vec3};
use shadow_scene::orchestrator::{
    confirm_uploads, DrawCommand, LightMove, Orchestrator, UploadCommand,
};
use shadow_scene::projection::Projection;
use shadow_scene::scene::{MeshData, Model};
use shadow_scene::shadow::DepthTarget;
use shadow_scene::Error;

fn v(x: i64, y: i64, z: i64) -> Vec3 {
    Vec3 { x, y, z }
}

fn demo_models() -> Vec<Model> {
    let house_mesh = MeshData { vertex_count: 8, indices: vec![0, 1, 2, 0, 2, 3, 4, 5, 6] };
    let bulb_mesh = MeshData { vertex_count: 3, indices: vec![0, 1, 2] };
    vec![
        Model::from_mesh(0, &house_mesh, 10).unwrap(),
        Model::from_mesh(1, &bulb_mesh, 11).unwrap(),
    ]
}

fn demo_orchestrator() -> Orchestrator {
    let models = demo_models();
    let (scenery, lights, markers) = compose_scene(
        800,
        600,
        &models[0],
        &models[1],
        Some(DepthTarget { id: 0 }),
        Some(DepthTarget { id: 1 }),
        Some(DepthTarget { id: 2 }),
    )
    .unwrap();
    let viewer = Projection::new(800, 600, 45_000, 100, 100_000).unwrap();
    Orchestrator::new(models, scenery, lights, markers, viewer).unwrap()
}

#[test]
fn isqrt_matches_exact_values() {
    assert_eq!(isqrt(0), 0);
    assert_eq!(isqrt(1), 1);
    assert_eq!(isqrt(3), 1);
    assert_eq!(isqrt(4), 2);
    assert_eq!(isqrt(150_000_000), 12_247);
}

#[test]
fn normalize_matches_exact_values() {
    assert_eq!(normalize(&v(5000, -10000, -5000)), v(408, -816, -408));
    assert_eq!(normalize(&v(2_000_000, 0, 0)), v(1000, 0, 0));
    assert_eq!(normalize(&v(0, -1, 0)), v(0, -1000, 0));
}

#[test]
fn composed_scene_matches_the_authored_description() {
    let models = demo_models();
    let (scenery, lights, markers) = compose_scene(
        800,
        600,
        &models[0],
        &models[1],
        Some(DepthTarget { id: 0 }),
        Some(DepthTarget { id: 1 }),
        Some(DepthTarget { id: 2 }),
    )
    .unwrap();
    assert_eq!(lights.len(), 3);
    assert_eq!(lights[0].position, v(-5000, 10000, 5000));
    assert_eq!(lights[1].position, v(0, 2100, 1200));
    assert_eq!(lights[2].position, v(-5000, 10000, -5000));
    for (i, l) in lights.iter().enumerate() {
        assert_eq!(l.index, i as u64);
        assert_eq!(l.shadow.light_index, i as u64);
    }
    assert_eq!(lights[1].spot.unwrap().inner_cos, 990);
    assert_eq!(lights[1].spot.unwrap().outer_cos, 850);
    assert_eq!(scenery.len(), 1);
    assert_eq!(scenery[0].name, "house2");
    assert_eq!(scenery[0].model, 0);
    assert_eq!(scenery[0].scale, 1000);
    assert_eq!(markers.len(), 1);
    assert_eq!(markers[0].name, "bulb");
    assert_eq!(markers[0].position, v(0, 2080, 1200));
    assert_eq!(markers[0].scale, 42);
}

#[test]
fn compose_scene_rejects_zero_viewport_and_missing_targets() {
    let models = demo_models();
    let bad_viewport = compose_scene(
        0,
        600,
        &models[0],
        &models[1],
        Some(DepthTarget { id: 0 }),
        Some(DepthTarget { id: 1 }),
        Some(DepthTarget { id: 2 }),
    );
    assert_eq!(bad_viewport.unwrap_err(), Error::InvalidParameter);

    let no_target = compose_scene(
        800,
        600,
        &models[0],
        &models[1],
        Some(DepthTarget { id: 0 }),
        None,
        Some(DepthTarget { id: 2 }),
    );
    assert_eq!(no_target.unwrap_err(), Error::ResourceAllocationError);
}

#[test]
fn frame_plans_uploads_before_shadow_passes_before_main_pass() {
    let mut orch = demo_orchestrator();
    let p_key = v(-4545, 10000, 5417);
    let p_back = v(-5009, 10000, -4991);
    let moves = vec![
        LightMove { light: 0, new_position: Some(p_key), new_direction: None },
        LightMove { light: 2, new_position: Some(p_back), new_direction: None },
    ];
    let plan = orch.frame(&moves).unwrap();

    assert_eq!(plan.uploads.len(), 4);
    match plan.uploads[0] {
        UploadCommand::LightSlot { slot, record } => {
            assert_eq!(slot, 0);
            assert_eq!(record.position, p_key);
            assert_eq!(record.ambient, 400);
        }
        _ => panic!("first upload must refresh the moved light's slot"),
    }
    match plan.uploads[1] {
        UploadCommand::ShadowUniform { slot, uniform } => {
            assert_eq!(slot, 0);
            assert_eq!(uniform.eye, p_key);
            // anchor - position, normalised: the shadow camera looks at the anchor
            assert_eq!(uniform.direction, normalize(&v(4545, -10000, -5417)));
        }
        _ => panic!("the moved light's shadow uniform must follow its slot write"),
    }
    match plan.uploads[2] {
        UploadCommand::LightSlot { slot, .. } => assert_eq!(slot, 2),
        _ => panic!("second move must write slot 2"),
    }

    assert_eq!(plan.draws.len(), 4);
    assert_eq!(plan.draws[0], DrawCommand::ShadowPass { slot: 0 });
    assert_eq!(plan.draws[1], DrawCommand::ShadowPass { slot: 1 });
    assert_eq!(plan.draws[2], DrawCommand::ShadowPass { slot: 2 });
    assert_eq!(plan.draws[3], DrawCommand::MainPass);

    // state and mirrors follow the moves; the unmoved spotlight is untouched
    assert_eq!(orch.lights[0].position, p_key);
    assert_eq!(orch.lights[0].shadow.position, p_key);
    assert_eq!(orch.light_slots[0].position, p_key);
    assert_eq!(orch.lights[1].position, v(0, 2100, 1200));
    assert_eq!(orch.light_slots[1].position, v(0, 2100, 1200));
    assert_eq!(orch.lights[2].position, p_back);
}

#[test]
fn frame_rejects_bad_moves_whole() {
    let mut orch = demo_orchestrator();
    let out_of_range = vec![LightMove { light: 9, new_position: None, new_direction: None }];
    assert_eq!(orch.frame(&out_of_range).unwrap_err(), Error::InvalidParameter);

    let duplicate = vec![
        LightMove { light: 0, new_position: Some(v(1, 2, 3)), new_direction: None },
        LightMove { light: 0, new_position: Some(v(4, 5, 6)), new_direction: None },
    ];
    assert_eq!(orch.frame(&duplicate).unwrap_err(), Error::InvalidParameter);

    // nothing moved
    assert_eq!(orch.lights[0].position, v(-5000, 10000, 5000));
}

#[test]
fn orchestrator_rejects_a_composition_with_broken_slots() {
    let models = demo_models();
    let (scenery, mut lights, markers) = compose_scene(
        800,
        600,
        &models[0],
        &models[1],
        Some(DepthTarget { id: 0 }),
        Some(DepthTarget { id: 1 }),
        Some(DepthTarget { id: 2 }),
    )
    .unwrap();
    lights[1].index = 7; // slot identity broken
    let viewer = Projection::new(800, 600, 45_000, 100, 100_000).unwrap();
    let r = Orchestrator::new(models, scenery, lights, markers, viewer);
    assert_eq!(r.unwrap_err(), Error::InvalidParameter);
}

#[test]
fn orchestrator_mirrors_match_lights_at_start() {
    let orch = demo_orchestrator();
    assert_eq!(orch.light_slots.len(), 3);
    assert_eq!(orch.shadow_slots.len(), 3);
    let expected = LightRecord {
        position: orch.lights[0].position,
        color: orch.lights[0].color,
        ambient: orch.lights[0].ambient,
        diffuse: orch.lights[0].diffuse,
        spot: orch.lights[0].spot,
    };
    assert_eq!(orch.light_slots[0], expected);
    assert_eq!(orch.shadow_slots[1].direction, v(0, -1000, 0));
}

#[test]
fn orchestrator_resize_touches_only_the_viewer_aspect() {
    let mut orch = demo_orchestrator();
    let shadow_proj_before = orch.lights[0].shadow.projection;
    assert_eq!(orch.resize(0, 100).unwrap_err(), Error::InvalidParameter);
    orch.resize(1920, 1080).unwrap();
    assert_eq!(orch.viewer.width, 1920);
    assert_eq!(orch.viewer.height, 1080);
    assert_eq!(orch.viewer.znear, 100);
    assert_eq!(orch.viewer.zfar, 100_000);
    assert_eq!(orch.lights[0].shadow.projection, shadow_proj_before);
}

#[test]
fn moving_scenery_leaves_other_instances_and_models_alone() {
    let mut orch = demo_orchestrator();
    let models_before = orch.models.clone();
    let markers_before_name = orch.markers[0].name.clone();
    orch.set_scenery_position(0, v(100, 0, 100)).unwrap();
    assert_eq!(orch.scenery[0].position, v(100, 0, 100));
    assert_eq!(orch.scenery[0].name, "house2");
    assert_eq!(orch.models, models_before);
    assert_eq!(orch.markers[0].name, markers_before_name);
    assert_eq!(
        orch.set_scenery_position(5, v(0, 0, 0)).unwrap_err(),
        Error::InvalidParameter
    );
}

#[test]
fn failed_uploads_abort_the_frame() {
    assert!(confirm_uploads(&vec![true, true, true, true]).is_ok());
    assert!(confirm_uploads(&vec![]).is_ok());
    assert_eq!(
        confirm_uploads(&vec![true, false, true]).unwrap_err(),
        Error::UploadFailure
    );
}
