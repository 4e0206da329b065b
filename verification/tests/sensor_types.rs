use rocm_oxide_sim::sensors::{
    default_camera_height, default_camera_width, default_lidar_horizontal_samples,
    default_lidar_vertical_channels,
};
use rocm_oxide_sim::{
    builtin_scene_object_ids, scene_object_ids, CameraSensorConfig, Entity, EulerRotation,
    FrameOutputMetadata, LidarConfig, Material, MaterialKind, ObjectId, ObjectIdMetadata,
    PrimitiveShape, Scene, SensorConfig, SensorMount, SensorRig, Transform, Vec3,
};

fn translation(x: f32, y: f32, z: f32) -> Transform<f32> {
    Transform {
        translation: Vec3::new(x, y, z),
        rotation: EulerRotation::new(0.0, 0.0, 0.0),
        scale: Vec3::splat(1.0),
    }
}

fn matte(r: f32, g: f32, b: f32) -> Material<f32> {
    Material {
        base_color: Vec3::new(r, g, b),
        emission: Vec3::splat(0.0),
        roughness: 0.8,
        metallic: 0.0,
        kind: MaterialKind::Matte,
    }
}

/// The built-in sensor scene: a ground plane and three spheres.
fn default_sensor_scene() -> Scene<f32> {
    let mut scene = Scene::new();
    scene.add_entity(Entity::new(
        "ground",
        PrimitiveShape::plane(Vec3::new(0.0, 1.0, 0.0), 0.0),
        translation(0.0, 0.0, 0.0),
        matte(0.55, 0.56, 0.52),
        ObjectId::new(1),
    ));
    scene.add_entity(Entity::new(
        "red sphere",
        PrimitiveShape::sphere(0.55),
        translation(-0.9, 0.55, -1.2),
        matte(0.9, 0.12, 0.1),
        ObjectId::new(2),
    ));
    scene.add_entity(Entity::new(
        "green sphere",
        PrimitiveShape::sphere(0.45),
        translation(0.25, 0.45, -1.9),
        matte(0.1, 0.62, 0.22),
        ObjectId::new(3),
    ));
    scene.add_entity(Entity::new(
        "blue sphere",
        PrimitiveShape::sphere(0.35),
        translation(1.05, 0.35, -1.45),
        matte(0.1, 0.28, 0.9),
        ObjectId::new(4),
    ));
    scene
}

#[test]
fn scene_object_id_metadata_comes_from_scene_entities() {
    let scene = default_sensor_scene();

    let ids = scene_object_ids(&scene);

    assert_eq!(ids[0], ObjectIdMetadata::new(0, "background"));
    assert_eq!(
        ids.iter().map(|entry| entry.id).collect::<Vec<_>>(),
        vec![0, 1, 2, 3, 4]
    );
    assert!(ids.iter().any(|entry| entry.label == "green sphere"));
}

#[test]
fn scene_object_id_metadata_includes_primitive_and_material_kind() {
    let mut scene = Scene::new();
    scene.add_entity(Entity::new(
        "red box",
        PrimitiveShape::box_with_half_extents(Vec3::splat(0.5)),
        translation(0.0, 0.5, -1.0),
        Material {
            base_color: Vec3::new(0.9, 0.1, 0.1),
            emission: Vec3::splat(0.0),
            roughness: 0.45,
            metallic: 0.0,
            kind: MaterialKind::Diffuse,
        }
        .with_kind(MaterialKind::Matte),
        ObjectId::new(9),
    ));

    let ids = scene_object_ids(&scene);
    let red_box = ids.iter().find(|entry| entry.id == 9).unwrap();

    assert_eq!(red_box.label, "red box");
    assert_eq!(red_box.primitive.as_deref(), Some("box"));
    assert_eq!(red_box.material.as_deref(), Some("matte"));
}

#[test]
fn scene_object_ids_are_sorted_unique_and_first_entity_wins() {
    let mut scene = Scene::new();
    for (name, id) in [("b", 7u32), ("a", 3), ("background thing", 0), ("later b", 7), ("c", 5)] {
        scene.add_entity(Entity::new(
            name,
            PrimitiveShape::sphere(1.0f32),
            translation(0.0, 0.0, 0.0),
            matte(0.0, 0.0, 0.0),
            ObjectId::new(id),
        ));
    }
    let ids = scene_object_ids(&scene);
    assert_eq!(ids.iter().map(|e| e.id).collect::<Vec<_>>(), vec![0, 3, 5, 7]);
    assert_eq!(ids[3].label, "b");
    assert_eq!(ids[0].primitive, None);
    assert_eq!(ids[1].primitive.as_deref(), Some("sphere"));
}

#[test]
fn builtin_object_ids_label_the_default_scene() {
    let builtin = builtin_scene_object_ids();
    let from_scene = scene_object_ids(&default_sensor_scene());
    assert_eq!(builtin.len(), from_scene.len());
    for (a, b) in builtin.iter().zip(from_scene.iter()) {
        assert_eq!(a.id, b.id);
        assert_eq!(a.label, b.label);
    }
    assert_eq!(from_scene[1].primitive.as_deref(), Some("plane"));
}

#[test]
fn frame_output_metadata_and_object_labels_keep_their_text() {
    let output = FrameOutputMetadata::new("rgb", "ppm", "rgb/frame_000001.ppm");
    assert_eq!(output.name, "rgb");
    assert_eq!(output.format, "ppm");
    assert_eq!(output.path, "rgb/frame_000001.ppm");
    let label = ObjectIdMetadata::new(8, "red box").with_primitive("box").with_material("matte");
    assert_eq!(label.primitive.as_deref(), Some("box"));
    assert_eq!(label.material.as_deref(), Some("matte"));
}

fn camera(width: u32) -> SensorConfig<f32> {
    SensorConfig::RgbCamera(CameraSensorConfig { width, height: 360, vertical_fov_degrees: 55.0 })
}

fn lidar(samples: u32) -> SensorConfig<f32> {
    SensorConfig::Lidar(LidarConfig {
        horizontal_samples: samples,
        vertical_channels: 32,
        horizontal_fov_degrees: 360.0,
        vertical_fov_degrees: 30.0,
        min_range_m: 0.1,
        max_range_m: 50.0,
        pose: translation(0.0, 0.0, 0.0),
    })
}

#[test]
fn rig_finds_mounts_and_primary_sensors_in_mount_order() {
    let mount = |name: &str, sensor| SensorMount { name: name.to_string(), sensor, transform: translation(0.0, 1.0, 0.0) };
    let rig = SensorRig {
        name: "front_rig".to_string(),
        base_transform: translation(0.0, 1.1, 4.5),
        mounts: vec![
            mount("roof_lidar", lidar(512)),
            mount("front_camera", camera(640)),
            mount("rear_camera", camera(320)),
            mount("second_lidar", lidar(64)),
        ],
    };
    assert_eq!(rig.sensor_names(), vec!["roof_lidar", "front_camera", "rear_camera", "second_lidar"]);
    assert_eq!(rig.mount("rear_camera").unwrap().sensor.sensor_type(), "rgb_camera");
    assert!(rig.mount("missing").is_none());
    let (camera_mount, camera_config) = rig.primary_camera_mount().unwrap();
    assert_eq!(camera_mount.name, "front_camera");
    assert_eq!(camera_config.width, 640);
    let (lidar_mount, lidar_config) = rig.primary_lidar_mount().unwrap();
    assert_eq!(lidar_mount.name, "roof_lidar");
    assert_eq!(lidar_config.horizontal_samples, 512);
    assert_eq!(lidar_config.sample_count(), 512 * 32);
    assert_eq!(lidar(1).sensor_type(), "lidar");
    assert_eq!(lidar(1).camera_config(), None);
    let depth = SensorConfig::DepthCamera(CameraSensorConfig { width: 8, height: 4, vertical_fov_degrees: 40.0f32 });
    assert_eq!(depth.sensor_type(), "depth_camera");
    assert_eq!(depth.lidar_config(), None);
}

#[test]
fn sensor_defaults_match_documented_values() {
    assert_eq!(default_lidar_horizontal_samples(), 512);
    assert_eq!(default_lidar_vertical_channels(), 32);
    assert_eq!(default_camera_width(), 640);
    assert_eq!(default_camera_height(), 360);
}
