//! Verified core of a small simulation and sensor framework: scene and
//! entity bookkeeping, sensor configurations and metadata, image buffers and
//! their file encodings, the dataset layout, the host side of the GPU
//! renderer, and the live viewer's key handling.
//!
//! Geometry is generic over its scalar type; arithmetic on coordinates,
//! angles and depths is the caller's, and none of it happens here.

pub mod dataset;
pub mod encode;
pub mod geometry;
pub mod ids;
pub mod image;
pub mod metadata;
pub mod physics;
pub mod preview;
pub mod random;
pub mod render;
pub mod scene;
pub mod sensors;
pub mod text;
pub mod viewer;

pub use dataset::{
    dataset_directories, dataset_frame_outputs, frame_output_paths, sensor_lab_outputs,
    DatasetManifest, DatasetWriter, DepthConvention, FrameOutputPaths, ManifestFrame,
    OutputSelection, SegmentationConvention,
};
pub use encode::{
    segmentation_color, write_pgm, write_ppm, write_segmentation_preview_ppm,
    write_segmentation_u32,
};
pub use geometry::{EulerRotation, Material, MaterialKind, PrimitiveShape, Transform, Vec3};
pub use ids::{EntityId, ObjectId};
pub use image::{DatasetError, DepthImage, RgbImage, SegmentationImage, SensorImageSet};
pub use metadata::{builtin_scene_object_ids, scene_object_ids, FrameOutputMetadata, ObjectIdMetadata};
pub use physics::{NoopPhysicsWorld, PhysicsWorld};
pub use preview::{grey_to_rgba, rgb_to_rgba, segmentation_to_rgba};
pub use render::{
    gpu_scene_layout, rocm_feature_enabled, GpuMaterialRecord, GpuPrimitiveSlot, GpuSceneLayout, LidarScan,
    RocmLidarOutput, RocmRenderError, RocmRgbCamera, RocmRgbFrame, RocmScene, RocmSensorOutput,
    RocmSensorRenderer,
};
pub use scene::{Entity, Scene};
pub use sensors::{
    CameraSensorConfig, LidarConfig, SensorConfig, SensorMount, SensorRig,
};
pub use viewer::{handle_key, CameraMode, ViewMode, ViewerAction, ViewerKey};
