use animate_shader::geometry::{Orientation, Transform, Vec3, UNIT};
use animate_shader::material::{CustomMaterial, ShaderRef, SHADER_ASSET_PATH};
use animate_shader::scene::{setup, Entity, MaterialHandle, MeshHandle, PlaneMesh, Scene};

fn mesh_count(scene: &Scene) -> usize {
    scene.entities().iter().filter(|e| matches!(e, Entity::Mesh { .. })).count()
}

fn camera_count(scene: &Scene) -> usize {
    scene.entities().iter().filter(|e| matches!(e, Entity::Camera { .. })).count()
}

#[test]
fn new_scene_is_empty() {
    let scene = Scene::new();
    assert!(scene.meshes().is_empty());
    assert!(scene.materials().is_empty());
    assert!(scene.entities().is_empty());
}

#[test]
fn setup_spawns_one_mesh_and_one_camera() {
    let mut scene = Scene::new();
    setup(&mut scene);
    assert_eq!(scene.entities().len(), 2);
    assert_eq!(mesh_count(&scene), 1);
    assert_eq!(camera_count(&scene), 1);
}

#[test]
fn plane_is_ten_by_ten() {
    let mut scene = Scene::new();
    setup(&mut scene);
    assert_eq!(scene.meshes().len(), 1);
    assert_eq!(scene.meshes()[0], PlaneMesh { width: 10_000, depth: 10_000 });
}

#[test]
fn mesh_entity_stands_half_a_unit_up() {
    let mut scene = Scene::new();
    setup(&mut scene);
    match scene.entities()[0] {
        Entity::Mesh { mesh, material, transform } => {
            assert_eq!(mesh, MeshHandle { index: 0 });
            assert_eq!(material, MaterialHandle { index: 0 });
            assert_eq!(transform.translation, Vec3 { x: 0, y: 500, z: 0 });
            assert_eq!(transform.orientation, Orientation::Identity);
            assert_eq!(transform.scale, Vec3 { x: 1000, y: 1000, z: 1000 });
        }
        Entity::Camera { .. } => panic!("the first entity should draw the plane"),
    }
}

#[test]
fn camera_looks_at_origin() {
    let mut scene = Scene::new();
    setup(&mut scene);
    match scene.entities()[1] {
        Entity::Camera { transform } => {
            assert_eq!(transform.translation, Vec3 { x: -2000, y: 2500, z: 5000 });
            assert_eq!(
                transform.orientation,
                Orientation::LookingAt {
                    target: Vec3 { x: 0, y: 0, z: 0 },
                    up: Vec3 { x: 0, y: 1000, z: 0 },
                }
            );
            assert_eq!(transform.scale, Vec3 { x: 1000, y: 1000, z: 1000 });
        }
        Entity::Mesh { .. } => panic!("the second entity should be the camera"),
    }
}

#[test]
fn one_material_with_the_animated_shader() {
    let mut scene = Scene::new();
    setup(&mut scene);
    assert_eq!(scene.materials().len(), 1);
    assert_eq!(scene.materials()[0], CustomMaterial {});
    assert_eq!(SHADER_ASSET_PATH, "shaders/animate_shader.wgsl");
    assert_eq!(
        CustomMaterial::fragment_shader(),
        ShaderRef::Path("shaders/animate_shader.wgsl")
    );
}

#[test]
fn shader_query_is_stable() {
    let first = CustomMaterial::fragment_shader();
    let second = CustomMaterial::fragment_shader();
    assert_eq!(first, second);
    assert_ne!(first, ShaderRef::Default);
}

#[test]
fn second_setup_keeps_first_records() {
    let mut scene = Scene::new();
    setup(&mut scene);
    let meshes = scene.meshes().clone();
    let materials = scene.materials().clone();
    let entities = scene.entities().clone();
    setup(&mut scene);
    assert_eq!(&scene.meshes()[..1], &meshes[..]);
    assert_eq!(&scene.materials()[..1], &materials[..]);
    assert_eq!(&scene.entities()[..2], &entities[..]);
    assert_eq!(scene.entities().len(), 4);
    assert_eq!(mesh_count(&scene), 2);
    assert_eq!(camera_count(&scene), 2);
    match scene.entities()[2] {
        Entity::Mesh { mesh, material, .. } => {
            assert_eq!(mesh, MeshHandle { index: 1 });
            assert_eq!(material, MaterialHandle { index: 1 });
        }
        Entity::Camera { .. } => panic!("the third entity should draw the second plane"),
    }
}

#[test]
fn stores_hand_out_successive_handles() {
    let mut scene = Scene::new();
    let a = scene.add_mesh(PlaneMesh { width: 1, depth: 2 });
    let b = scene.add_mesh(PlaneMesh { width: 3, depth: 4 });
    let m = scene.add_material(CustomMaterial {});
    assert_eq!(a, MeshHandle { index: 0 });
    assert_eq!(b, MeshHandle { index: 1 });
    assert_eq!(m, MaterialHandle { index: 0 });
    scene.spawn(Entity::Mesh { mesh: b, material: m, transform: Transform::from_xyz(1, 2, 3) });
    assert_eq!(scene.meshes()[1], PlaneMesh { width: 3, depth: 4 });
    assert_eq!(scene.entities().len(), 1);
}

#[test]
fn transforms_place_and_aim() {
    let t = Transform::from_xyz(-UNIT, 2 * UNIT, 7);
    assert_eq!(t.translation, Vec3::new(-1000, 2000, 7));
    assert_eq!(t.orientation, Orientation::Identity);
    let aimed = t.looking_at(Vec3::new(1, 2, 3), Vec3::up());
    assert_eq!(aimed.translation, t.translation);
    assert_eq!(aimed.scale, t.scale);
    assert_eq!(
        aimed.orientation,
        Orientation::LookingAt { target: Vec3::new(1, 2, 3), up: Vec3::new(0, 1000, 0) }
    );
    assert_eq!(Vec3::zero(), Vec3::new(0, 0, 0));
}
