use rocm_oxide_sim::dataset::{frame_output_paths, DatasetManifest, DatasetWriter, OutputSelection};
use rocm_oxide_sim::encode::segmentation_color;
use rocm_oxide_sim::metadata::ObjectIdMetadata;
use rocm_oxide_sim::{dataset_directories, dataset_frame_outputs, sensor_lab_outputs, ManifestFrame};

#[test]
fn segmentation_color_mapping_is_stable_for_builtin_ids() {
    assert_eq!(segmentation_color(0), 0x0000_0000);
    assert_eq!(segmentation_color(1), 0x0080_8080);
    assert_eq!(segmentation_color(2), 0x00e6_1f1a);
    assert_eq!(segmentation_color(3), 0x001a_9e38);
    assert_eq!(segmentation_color(4), 0x001a_47e6);
}

#[test]
fn frame_output_paths_use_six_digit_relative_names() {
    let paths = frame_output_paths(42);

    assert_eq!(paths.rgb.as_deref(), Some("rgb/frame_000042.ppm"));
    assert_eq!(paths.depth.as_deref(), Some("depth/frame_000042.f32"));
    assert_eq!(
        paths.depth_preview.as_deref(),
        Some("depth_preview/frame_000042.pgm")
    );
    assert_eq!(
        paths.segmentation.as_deref(),
        Some("segmentation/frame_000042.u32")
    );
    assert_eq!(
        paths.segmentation_preview.as_deref(),
        Some("segmentation_preview/frame_000042.ppm")
    );
    assert_eq!(paths.metadata, "metadata/frame_000042.json");
}

#[test]
fn writer_manifest_lists_recorded_frames_in_order() {
    let manifest = DatasetManifest::new(2, 640, 360, 123, (), OutputSelection::all())
        .with_object_ids(vec![ObjectIdMetadata::new(0, "background")]);
    let mut writer = DatasetWriter::new_with_manifest("out", manifest);
    writer.record_sensor_outputs(1);
    writer.record_rgb_frame(2);
    let finished = writer.finish();
    assert_eq!(finished.frame_count, 2);
    assert_eq!(finished.frames[0].rgb, "rgb/frame_000001.ppm");
    assert_eq!(finished.frames[0].depth.as_deref(), Some("depth/frame_000001.f32"));
    assert_eq!(finished.frames[1].depth, None);
    assert_eq!(finished.frames[1].metadata, "metadata/frame_000002.json");
    assert_eq!(finished.dataset_format_version, 1);
    assert_eq!(finished.generator, "rocm-oxide-sim dataset_generator");
    assert_eq!(finished.segmentation_convention.background_id, 0);
    assert_eq!(finished.object_ids.len(), 1);
}

#[test]
fn frame_names_grow_past_six_digits() {
    let paths = frame_output_paths(1_234_567);
    assert_eq!(paths.metadata, "metadata/frame_1234567.json");
    assert_eq!(frame_output_paths(0).rgb.as_deref(), Some("rgb/frame_000000.ppm"));
    assert_eq!(frame_output_paths(u64::MAX).depth.as_deref(), Some("depth/frame_18446744073709551615.f32"));
}

#[test]
fn manifest_builders_set_their_fields() {
    let frames: Vec<ManifestFrame> = vec![frame_output_paths(1).to_manifest_frame(1)];
    let manifest = DatasetManifest::new(1, 320, 180, 11, "static", OutputSelection::all())
        .with_scene_path(Some("examples/scenes/basic_scene.json".into()))
        .with_config_path(None)
        .with_renderer_backend("cpu-preview")
        .with_frames(frames);
    assert_eq!(manifest.scene_path.as_deref(), Some("examples/scenes/basic_scene.json"));
    assert_eq!(manifest.config_path, None);
    assert_eq!(manifest.renderer_backend.as_deref(), Some("cpu-preview"));
    assert_eq!(manifest.frames[0].segmentation.as_deref(), Some("segmentation/frame_000001.u32"));
    assert_eq!(manifest.camera_path, "static");
    assert_eq!(manifest.format, "rocm-oxide-sim-rgbd-segmentation");
    assert_eq!(manifest.depth_convention.units, "meters");
    assert!(manifest.outputs.segmentation_preview);
}

#[test]
fn writer_lists_directories_and_frame_outputs() {
    assert_eq!(
        dataset_directories(),
        vec!["rgb", "depth", "depth_preview", "segmentation", "segmentation_preview", "metadata"]
    );
    let outputs = dataset_frame_outputs(3);
    assert_eq!(outputs.len(), 5);
    assert_eq!(outputs[1].format, "raw-f32-little-endian");
    assert_eq!(outputs[4].path, "segmentation_preview/frame_000003.ppm");
    assert_eq!(sensor_lab_outputs(false).len(), 5);
    let with_lidar = sensor_lab_outputs(true);
    assert_eq!(with_lidar.len(), 9);
    assert_eq!(with_lidar[6].path, "lidar_points.xyz");
    let writer = DatasetWriter::new("target/out");
    assert_eq!(writer.root_path(), "target/out");
    assert!(writer.recorded_frames().is_empty());
}

/// The static camera path the dataset tool uses by default: position,
/// target and vertical field of view in degrees. The manifest carries it
/// through unchanged.
fn static_camera_path() -> ([f32; 3], [f32; 3], f32) {
    ([0.0, 1.1, 4.5], [0.0, 0.55, -1.45], 55.0)
}

#[test]
fn manifest_contains_reproducibility_and_output_contracts() {
    let manifest = DatasetManifest::new(
        2,
        640,
        360,
        123,
        static_camera_path(),
        OutputSelection::all(),
    )
    .with_scene_path(Some("examples/scenes/basic_scene.json".into()))
    .with_config_path(Some("examples/datasets/basic_orbit.json".into()))
    .with_renderer_backend("rocm:gfx1201")
    .with_object_ids(vec![ObjectIdMetadata::new(0, "background")])
    .with_frames(vec![
        frame_output_paths(1).to_manifest_frame(1),
        frame_output_paths(2).to_manifest_frame(2),
    ]);

    assert_eq!(manifest.dataset_format_version, 1);
    assert_eq!(manifest.generator, "rocm-oxide-sim dataset_generator");
    assert_eq!(manifest.frame_count, 2);
    assert_eq!(manifest.width, 640);
    assert_eq!(manifest.seed, 123);
    assert_eq!(
        manifest.scene_path.as_deref(),
        Some("examples/scenes/basic_scene.json")
    );
    assert_eq!(
        manifest.config_path.as_deref(),
        Some("examples/datasets/basic_orbit.json")
    );
    assert_eq!(manifest.renderer_backend.as_deref(), Some("rocm:gfx1201"));
    assert_eq!(manifest.frames[1].metadata, "metadata/frame_000002.json");
    assert_eq!(
        f32::from_bits(manifest.depth_convention.miss_value_bits),
        0.0,
        "depth miss convention should remain stable"
    );
    assert_eq!(manifest.segmentation_convention.background_id, 0);
    assert_eq!(manifest.camera_path, static_camera_path());
}

#[test]
fn manifest_preserves_box_object_metadata() {
    let manifest = DatasetManifest::new(
        1,
        320,
        180,
        11,
        static_camera_path(),
        OutputSelection::all(),
    )
    .with_object_ids(vec![
        ObjectIdMetadata::new(0, "background"),
        ObjectIdMetadata::new(8, "red box")
            .with_primitive("box")
            .with_material("matte"),
    ])
    .with_frames(vec![frame_output_paths(1).to_manifest_frame(1)]);

    let red_box = manifest
        .object_ids
        .iter()
        .find(|entry| entry.id == 8)
        .unwrap();

    assert_eq!(red_box.primitive.as_deref(), Some("box"));
    assert_eq!(red_box.material.as_deref(), Some("matte"));
}

#[test]
fn manifest_frames_name_their_files_in_order() {
    let full = frame_output_paths(3).to_manifest_frame(3);
    assert_eq!(
        full.files(),
        vec![
            "rgb/frame_000003.ppm",
            "depth/frame_000003.f32",
            "depth_preview/frame_000003.pgm",
            "segmentation/frame_000003.u32",
            "segmentation_preview/frame_000003.ppm",
            "metadata/frame_000003.json",
        ]
    );

    let mut writer = DatasetWriter::new("out");
    writer.record_rgb_frame(9);
    let rgb_only = writer.finish().frames[0].clone();
    assert_eq!(
        rgb_only.files(),
        vec!["rgb/frame_000009.ppm", "metadata/frame_000009.json"]
    );
}

#[test]
fn manifest_frame_count_must_match_listed_frames() {
    let listed = DatasetManifest::new(1, 4, 4, 0, (), OutputSelection::all())
        .with_frames(vec![frame_output_paths(1).to_manifest_frame(1)]);
    assert!(listed.frame_count_matches());
    let missing = DatasetManifest::new(2, 4, 4, 0, (), OutputSelection::all())
        .with_frames(vec![frame_output_paths(1).to_manifest_frame(1)]);
    assert!(!missing.frame_count_matches());
}
