use rocm_oxide_sim::{
    Entity, EntityId, EulerRotation, Material, MaterialKind, NoopPhysicsWorld, ObjectId,
    PhysicsWorld, PrimitiveShape, Scene, Transform, Vec3,
};

fn translation(x: f32, y: f32, z: f32) -> Transform<f32> {
    Transform {
        translation: Vec3::new(x, y, z),
        rotation: EulerRotation::new(0.0, 0.0, 0.0),
        scale: Vec3::splat(1.0),
    }
}

fn matte(r: f32, g: f32, b: f32) -> Material<f32> {
    Material {
        base_color: Vec3::new(r, g, b),
        emission: Vec3::splat(0.0),
        roughness: 0.8,
        metallic: 0.0,
        kind: MaterialKind::Matte,
    }
}

/// The built-in sensor scene: a ground plane and three spheres.
fn default_sensor_scene() -> Scene<f32> {
    let mut scene = Scene::new();
    scene.add_entity(Entity::new(
        "ground",
        PrimitiveShape::plane(Vec3::new(0.0, 1.0, 0.0), 0.0),
        translation(0.0, 0.0, 0.0),
        matte(0.55, 0.56, 0.52),
        ObjectId::new(1),
    ));
    scene.add_entity(Entity::new(
        "red sphere",
        PrimitiveShape::sphere(0.55),
        translation(-0.9, 0.55, -1.2),
        matte(0.9, 0.12, 0.1),
        ObjectId::new(2),
    ));
    scene.add_entity(Entity::new(
        "green sphere",
        PrimitiveShape::sphere(0.45),
        translation(0.25, 0.45, -1.9),
        matte(0.1, 0.62, 0.22),
        ObjectId::new(3),
    ));
    scene.add_entity(Entity::new(
        "blue sphere",
        PrimitiveShape::sphere(0.35),
        translation(1.05, 0.35, -1.45),
        matte(0.1, 0.28, 0.9),
        ObjectId::new(4),
    ));
    scene
}

#[test]
fn scene_adds_and_queries_entities_by_id_and_object_id() {
    let mut scene = Scene::new();
    let entity = Entity::new(
        "red sphere",
        PrimitiveShape::sphere(0.5),
        translation(0.0, 0.5, 0.0),
        matte(1.0, 0.0, 0.0),
        ObjectId::new(7),
    );

    let id = scene.add_entity(entity);

    assert_eq!(id, EntityId::new(1));
    assert_eq!(scene.entity(id).unwrap().name, "red sphere");
    assert_eq!(scene.by_object_id(ObjectId::new(7)).unwrap().id, id);
    assert_eq!(scene.entities().len(), 1);
}

#[test]
fn noop_physics_keeps_scene_unchanged() {
    let mut scene = default_sensor_scene();
    let before = scene.clone();
    let mut physics = NoopPhysicsWorld;

    physics.step(&mut scene, 1.0 / 60.0).unwrap();

    assert_eq!(scene, before);
}

#[test]
fn added_entities_get_increasing_ids_and_lookups_find_them() {
    let mut scene = default_sensor_scene();
    assert_eq!(scene.len(), 4);
    assert_eq!(scene.next_entity_id(), 5);
    let ids: Vec<u64> = scene.entities().iter().map(|e| e.id.get()).collect();
    assert_eq!(ids, vec![1, 2, 3, 4]);
    assert_eq!(scene.entity(EntityId::new(3)).unwrap().name, "green sphere");
    assert!(scene.entity(EntityId::new(9)).is_none());
    assert!(scene.by_object_id(ObjectId::new(0)).is_none());
    assert_eq!(scene.entity_index(EntityId::new(4)), Some(3));
}

#[test]
fn lookup_returns_the_first_entity_with_a_repeated_id() {
    let a = Entity {
        id: EntityId::new(5),
        ..Entity::new("first", PrimitiveShape::sphere(1.0f32), translation(0.0, 0.0, 0.0), matte(0.0, 0.0, 0.0), ObjectId::new(3))
    };
    let b = Entity { name: "second".to_string(), ..a.clone() };
    let scene = Scene::from_parts(vec![a, b], 6);
    assert_eq!(scene.entity(EntityId::new(5)).unwrap().name, "first");
    assert_eq!(scene.by_object_id(ObjectId::new(3)).unwrap().name, "first");
}

#[test]
fn entity_mut_changes_only_that_entity() {
    let mut scene = default_sensor_scene();
    scene.entity_mut(EntityId::new(2)).unwrap().name = "renamed".to_string();
    assert_eq!(scene.entity(EntityId::new(2)).unwrap().name, "renamed");
    assert_eq!(scene.entity(EntityId::new(3)).unwrap().name, "green sphere");
    assert!(scene.entity_mut(EntityId::new(42)).is_none());
    assert_eq!(scene.len(), 4);
}

#[test]
fn entity_ids_print_in_base_ten_and_default_to_unassigned() {
    assert_eq!(EntityId::new(1234).to_string(), "1234");
    assert_eq!(EntityId::new(0).to_string(), "0");
    assert_eq!(EntityId::default(), EntityId::unassigned());
    assert_eq!(ObjectId::default().get(), 0);
    assert_eq!(ObjectId::background(), ObjectId::new(0));
}

#[test]
fn material_kinds_have_names_and_gpu_numbers() {
    assert_eq!(MaterialKind::Diffuse.as_str(), "diffuse");
    assert_eq!(MaterialKind::Emissive.as_str(), "emissive");
    assert_eq!(MaterialKind::Matte.as_str(), "matte");
    assert_eq!(MaterialKind::MetalPreview.as_str(), "metal_preview");
    assert_eq!(MaterialKind::Diffuse.gpu_id(), 0);
    assert_eq!(MaterialKind::MetalPreview.gpu_id(), 3);
    assert_eq!(MaterialKind::default(), MaterialKind::Matte);
    let m = matte(0.5, 0.5, 0.5).with_kind(MaterialKind::Emissive).with_emission(Vec3::splat(2.0));
    assert_eq!(m.kind, MaterialKind::Emissive);
    assert_eq!(m.emission, Vec3::new(2.0, 2.0, 2.0));
    assert_eq!(m.roughness, 0.8);
}
