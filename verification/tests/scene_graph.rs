use shadow_scene::math::Vec3;
use shadow_scene::scene::{FileSource, MeshData, Model, Rotation};
use shadow_scene::Error;

fn v(x: i64, y: i64, z: i64) -> Vec3 {
    Vec3 { x, y, z }
}

fn no_turn() -> Rotation {
    Rotation { axis: v(0, 0, 1000), angle_mdeg: 0 }
}

fn square_mesh() -> MeshData {
    MeshData { vertex_count: 4, indices: vec![0, 1, 2, 0, 2, 3] }
}

#[test]
fn from_mesh_accepts_well_formed_data() {
    let m = Model::from_mesh(0, &square_mesh(), 7).unwrap();
    assert_eq!(m.index, 0);
    assert_eq!(m.vertex_count, 4);
    assert_eq!(m.triangle_count, 2);
    assert_eq!(m.texture, 7);
}

#[test]
fn from_mesh_rejects_malformed_data() {
    let no_verts = MeshData { vertex_count: 0, indices: vec![] };
    assert_eq!(Model::from_mesh(0, &no_verts, 7).unwrap_err(), Error::ParseError);

    let ragged = MeshData { vertex_count: 4, indices: vec![0, 1] };
    assert_eq!(Model::from_mesh(0, &ragged, 7).unwrap_err(), Error::ParseError);

    let dangling = MeshData { vertex_count: 4, indices: vec![0, 1, 9] };
    assert_eq!(Model::from_mesh(0, &dangling, 7).unwrap_err(), Error::ParseError);
}

#[test]
fn mutating_one_instance_leaves_its_sibling_and_the_model_alone() {
    let model = Model::from_mesh(0, &square_mesh(), 7).unwrap();
    let mut a = model.instantiate("left".to_string(), v(0, 0, 0), no_turn(), 1000);
    let b = model.instantiate("right".to_string(), v(2000, 0, 0), no_turn(), 1000);

    a.set_position(v(0, 500, 0));
    a.set_rotation(Rotation { axis: v(0, 1000, 0), angle_mdeg: 90_000 });
    a.set_scale(500);

    assert_eq!(a.position, v(0, 500, 0));
    assert_eq!(a.scale, 500);
    assert_eq!(a.model, 0);
    assert_eq!(a.name, "left");

    // the sibling instance is untouched
    assert_eq!(b.position, v(2000, 0, 0));
    assert_eq!(b.rotation, no_turn());
    assert_eq!(b.scale, 1000);
    assert_eq!(b.name, "right");
    assert_eq!(b.model, 0);

    // the shared mesh data is untouched
    assert_eq!(model.vertex_count, 4);
    assert_eq!(model.triangle_count, 2);
    assert_eq!(model.texture, 7);
}

#[test]
fn file_source_serves_first_entry_for_a_path() {
    let mut src = FileSource::new();
    src.add(b"./assets/house2.obj".to_vec(), b"house-obj".to_vec());
    src.add(b"./assets/house2.mtl".to_vec(), b"house-mtl".to_vec());
    src.add(b"./assets/house2.obj".to_vec(), b"shadowed-duplicate".to_vec());

    let got = src.get(&b"./assets/house2.obj".to_vec()).unwrap();
    assert_eq!(*got, b"house-obj".to_vec());
    let mtl = src.get(&b"./assets/house2.mtl".to_vec()).unwrap();
    assert_eq!(*mtl, b"house-mtl".to_vec());
    assert!(src.get(&b"./assets/bulb.obj".to_vec()).is_none());
}

#[test]
fn fetch_reports_a_missing_path_as_asset_not_found() {
    let mut src = FileSource::new();
    src.add(b"./assets/bulb.obj".to_vec(), b"bulb".to_vec());
    assert_eq!(*src.fetch(&b"./assets/bulb.obj".to_vec()).unwrap(), b"bulb".to_vec());
    assert_eq!(
        src.fetch(&b"./assets/house2.obj".to_vec()).unwrap_err(),
        Error::AssetNotFound
    );
}
