use rocm_oxide_sim::{
    handle_key, CameraMode, ViewMode, ViewerAction, ViewerKey,
    gpu_scene_layout, rocm_feature_enabled, Entity, EulerRotation, GpuPrimitiveSlot, Material,
    MaterialKind, ObjectId, PrimitiveShape, RocmRenderError, RocmRgbCamera, RocmSensorRenderer,
    Scene, Transform, Vec3,
};

fn translation(x: f32, y: f32, z: f32) -> Transform<f32> {
    Transform {
        translation: Vec3::new(x, y, z),
        rotation: EulerRotation::new(0.0, 0.0, 0.0),
        scale: Vec3::splat(1.0),
    }
}

fn matte(r: f32, g: f32, b: f32) -> Material<f32> {
    Material {
        base_color: Vec3::new(r, g, b),
        emission: Vec3::splat(0.0),
        roughness: 0.8,
        metallic: 0.0,
        kind: MaterialKind::Matte,
    }
}

fn default_sensor_scene() -> Scene<f32> {
    let mut scene = Scene::new();
    scene.add_entity(Entity::new("ground", PrimitiveShape::plane(Vec3::new(0.0, 1.0, 0.0), 0.0), translation(0.0, 0.0, 0.0), matte(0.55, 0.56, 0.52), ObjectId::new(1)));
    scene.add_entity(Entity::new("red sphere", PrimitiveShape::sphere(0.55), translation(-0.9, 0.55, -1.2), matte(0.9, 0.12, 0.1), ObjectId::new(2)));
    scene.add_entity(Entity::new("green sphere", PrimitiveShape::sphere(0.45), translation(0.25, 0.45, -1.9), matte(0.1, 0.62, 0.22), ObjectId::new(3)));
    scene.add_entity(Entity::new("blue sphere", PrimitiveShape::sphere(0.35), translation(1.05, 0.35, -1.45), matte(0.1, 0.28, 0.9), ObjectId::new(4)));
    scene
}

#[test]
fn default_scene_converts_to_gpu_buffers() {
    let scene = default_sensor_scene();

    let layout = gpu_scene_layout(&scene).unwrap();

    assert_eq!(layout.planes.len(), 1);
    assert_eq!(layout.spheres.len(), 3);
    assert_eq!(layout.materials.len(), 4);
    assert_eq!(layout.planes[0].object_id, 1);
    assert_eq!(
        layout.spheres.iter().map(|sphere| sphere.object_id).collect::<Vec<_>>(),
        vec![2, 3, 4]
    );
}

#[test]
fn material_mapping_uses_entity_order() {
    let mut scene = Scene::new();
    scene.add_entity(Entity::new(
        "custom sphere",
        PrimitiveShape::sphere(1.0),
        translation(1.0, 2.0, 3.0),
        matte(0.25, 0.5, 0.75),
        ObjectId::new(42),
    ));

    let layout = gpu_scene_layout(&scene).unwrap();

    assert_eq!(layout.spheres[0].material_id, 0);
    assert_eq!(layout.spheres[0].object_id, 42);
    assert_eq!(layout.materials[0].base_color, Vec3::new(0.25, 0.5, 0.75));
}

#[test]
fn unsupported_box_reports_entity_name() {
    let mut scene = Scene::new();
    scene.add_entity(Entity::new(
        "box for later",
        PrimitiveShape::box_with_half_extents(Vec3::splat(0.5f32)),
        translation(0.0, 0.0, 0.0),
        matte(0.8, 0.8, 0.8),
        ObjectId::new(9),
    ));

    let err = gpu_scene_layout(&scene).unwrap_err();

    let RocmRenderError::UnsupportedPrimitive { entity, primitive } = err else {
        panic!("expected an unsupported primitive")
    };
    assert!(entity.contains("box for later"));
    assert!(format!("{primitive:?}").contains("Box"));
    assert_eq!(
        format!("{primitive:?}"),
        "Box { half_extents: Vec3 { x: 0.5, y: 0.5, z: 0.5 } }"
    );
}

#[test]
fn layout_keeps_sphere_and_plane_slots_in_scene_order() {
    let mut scene = default_sensor_scene();
    scene.add_entity(Entity::new("second plane", PrimitiveShape::plane(Vec3::new(0.0, 0.0, 1.0), 2.0), translation(0.0, 0.0, 0.0), matte(0.1, 0.1, 0.1), ObjectId::new(7)));
    let layout = gpu_scene_layout(&scene).unwrap();
    assert_eq!(
        layout.planes,
        vec![
            GpuPrimitiveSlot { entity_index: 0, material_id: 0, object_id: 1 },
            GpuPrimitiveSlot { entity_index: 4, material_id: 4, object_id: 7 },
        ]
    );
    assert_eq!(layout.spheres[2], GpuPrimitiveSlot { entity_index: 3, material_id: 3, object_id: 4 });
}

#[test]
fn renderer_reports_unavailable_without_rocm_feature() {
    assert!(matches!(
        RocmSensorRenderer::new(),
        Err(RocmRenderError::BackendUnavailable)
    ));
    assert!(!rocm_feature_enabled());
}

#[test]
fn upload_checks_the_scene_before_reporting_the_missing_backend() {
    let renderer = RocmSensorRenderer;
    assert_eq!(renderer.device_arch(), "unavailable");
    assert!(matches!(renderer.upload_scene(&default_sensor_scene()), Err(RocmRenderError::BackendUnavailable)));
    let mut boxes = Scene::new();
    boxes.add_entity(Entity::new("crate", PrimitiveShape::box_with_half_extents(Vec3::splat(1.0f32)), translation(0.0, 0.0, 0.0), matte(0.2, 0.2, 0.2), ObjectId::new(3)));
    let Err(RocmRenderError::UnsupportedPrimitive { entity, primitive }) = renderer.upload_scene(&boxes) else {
        panic!("expected the layout's error")
    };
    assert_eq!(entity, "crate");
    assert_eq!(primitive, PrimitiveShape::box_with_half_extents(Vec3::splat(1.0f32)));
}

#[test]
fn render_target_pixel_count_is_width_times_height() {
    let camera = RocmRgbCamera::from_resolution(320, 180);
    assert_eq!(camera.pixel_count(), 57_600);
    assert_eq!(RocmRgbCamera { width: 0, height: 5 }.pixel_count(), 0);
}

#[test]
fn viewer_keys_select_modes_reset_and_quit() {
    assert_eq!(
        handle_key(ViewMode::Rgb, ViewerKey::Digit2, true),
        (ViewMode::Depth, ViewerAction::Continue)
    );
    assert_eq!(
        handle_key(ViewMode::Depth, ViewerKey::Digit3, true),
        (ViewMode::Segmentation, ViewerAction::Continue)
    );
    assert_eq!(
        handle_key(ViewMode::Segmentation, ViewerKey::Digit1, true),
        (ViewMode::Rgb, ViewerAction::Continue)
    );
    assert_eq!(
        handle_key(ViewMode::Depth, ViewerKey::R, true),
        (ViewMode::Depth, ViewerAction::ResetCamera)
    );
    assert_eq!(
        handle_key(ViewMode::Segmentation, ViewerKey::Escape, true),
        (ViewMode::Segmentation, ViewerAction::Exit)
    );
    assert_eq!(
        handle_key(ViewMode::Rgb, ViewerKey::Other, true),
        (ViewMode::Rgb, ViewerAction::Continue)
    );
}

#[test]
fn viewer_key_release_changes_nothing() {
    assert_eq!(
        handle_key(ViewMode::Rgb, ViewerKey::Digit3, false),
        (ViewMode::Rgb, ViewerAction::Continue)
    );
    assert_eq!(
        handle_key(ViewMode::Depth, ViewerKey::Escape, false),
        (ViewMode::Depth, ViewerAction::Continue)
    );
}

#[test]
fn viewer_mode_names_and_steering() {
    assert_eq!(ViewMode::Rgb.as_str(), "rgb");
    assert_eq!(ViewMode::Depth.as_str(), "depth");
    assert_eq!(ViewMode::Segmentation.as_str(), "segmentation");
    assert_eq!(CameraMode::Static.as_str(), "static");
    assert_eq!(CameraMode::Orbit.as_str(), "orbit");
    assert!(CameraMode::Static.is_steerable());
    assert!(!CameraMode::Orbit.is_steerable());
}

#[test]
fn renderer_requests_report_unavailable_backend() {
    let renderer = RocmSensorRenderer;
    let scene: Scene<f32> = Scene::new();
    let camera = RocmRgbCamera::from_resolution(4, 2);
    assert!(matches!(
        renderer.render_rgb_to_device(&scene, camera),
        Err(RocmRenderError::BackendUnavailable)
    ));
    assert!(matches!(
        renderer.render_all_host::<f32, ()>(&scene, camera, ()),
        Err(RocmRenderError::BackendUnavailable)
    ));
    assert!(matches!(
        renderer.render_rgb_host(&scene, camera),
        Err(RocmRenderError::BackendUnavailable)
    ));
    assert!(matches!(
        renderer.upload_scene(&scene),
        Err(RocmRenderError::BackendUnavailable)
    ));
    assert_eq!(renderer.device_arch(), "unavailable");
}

#[test]
fn material_records_carry_colour_emission_roughness_and_kind() {
    let mut scene = Scene::new();
    scene.add_entity(Entity::new(
        "glow",
        PrimitiveShape::sphere(0.5f32),
        translation(0.0, 0.0, 0.0),
        Material {
            base_color: Vec3::new(0.9, 0.1, 0.2),
            emission: Vec3::splat(1.0),
            roughness: 0.3,
            metallic: 0.0,
            kind: MaterialKind::Emissive,
        },
        ObjectId::new(5),
    ));
    let layout = gpu_scene_layout(&scene).unwrap();
    assert_eq!(layout.materials[0].base_color, Vec3::new(0.9, 0.1, 0.2));
    assert_eq!(layout.materials[0].emission, Vec3::splat(1.0));
    assert_eq!(layout.materials[0].roughness, 0.3);
    assert_eq!(layout.materials[0].material_kind, MaterialKind::Emissive.gpu_id());
}
