//! The GPU sensor renderer's host side: which scene entities become GPU
//! primitives and materials, the render target size, and the renderer's
//! answers when no GPU backend is compiled in.
use vstd::prelude::*;

use crate::geometry::{material_kind_number, PrimitiveShape, Vec3};
use crate::image::{DepthImage, RgbImage, SegmentationImage, SensorImageSet};
use crate::scene::{Entity, Scene};
use crate::text::{append_decimal, decimal_text};

verus! {

/// Errors of the sensor renderer. `S` is the scalar type of the scene whose
/// shape an `UnsupportedPrimitive` error carries; errors raised without a
/// scene leave it at `()`.
#[derive(Debug)]
pub enum RocmRenderError<S = ()> {
    /// No GPU backend is compiled into this build.
    BackendUnavailable,
    /// The render target or scene cannot be rendered; the text says why.
    InvalidTarget(String),
    /// A scene entity, named by `entity`, uses the shape `primitive`, which
    /// the renderer does not draw. Its `Debug` text describes the shape.
    UnsupportedPrimitive { entity: String, primitive: PrimitiveShape<S> },
}

/// Whether a GPU backend is compiled into this build. This build has none.
pub fn rocm_feature_enabled() -> (enabled: bool)
    ensures
        !enabled,
{
    false
}

/// Size of the image a camera sensor renders.
#[derive(Debug, Clone, Copy, PartialEq, Eq)]
pub struct RocmRgbCamera {
    pub width: u32,
    pub height: u32,
}

impl RocmRgbCamera {
    /// The render target of a sensor whose intrinsics are `width` by
    /// `height` pixels.
    pub fn from_resolution(width: u32, height: u32) -> (camera: RocmRgbCamera)
        ensures
            camera == (RocmRgbCamera { width, height }),
    {
        RocmRgbCamera { width, height }
    }

    /// Number of pixels of the render target.
    pub fn pixel_count(self) -> (count: usize)
        requires
            self.width * self.height <= usize::MAX,
        ensures
            count == self.width * self.height,
    {
        assert((self.width as usize) * (self.height as usize) <= usize::MAX) by (nonlinear_arith)
            requires
                self.width * self.height <= usize::MAX,
        ;
        self.width as usize * self.height as usize
    }
}

/// Where an entity's primitive goes on the GPU: the entity's position in the
/// scene, its material record and its segmentation ID.
#[derive(Debug, Clone, Copy, PartialEq, Eq)]
pub struct GpuPrimitiveSlot {
    pub entity_index: usize,
    pub material_id: u32,
    pub object_id: u32,
}

/// The material record of one entity: its base colour, its emission, its
/// roughness and the GPU number of its material kind.
#[derive(Debug, Clone, Copy, PartialEq)]
pub struct GpuMaterialRecord<S> {
    pub base_color: Vec3<S>,
    pub emission: Vec3<S>,
    pub roughness: S,
    pub material_kind: u32,
}

/// How a scene is laid out in GPU buffers: one material record per entity in
/// scene order, and the spheres and planes in scene order.
#[derive(Debug, Clone, PartialEq)]
pub struct GpuSceneLayout<S> {
    pub spheres: Vec<GpuPrimitiveSlot>,
    pub planes: Vec<GpuPrimitiveSlot>,
    pub materials: Vec<GpuMaterialRecord<S>>,
}

/// The slot of entity `i`: its material record is the `i`-th.
pub open spec fn slot_of<S>(entities: Seq<Entity<S>>, i: int) -> GpuPrimitiveSlot {
    GpuPrimitiveSlot {
        entity_index: i as usize,
        material_id: i as u32,
        object_id: entities[i].object_id.value(),
    }
}

/// The material record of an entity.
pub open spec fn material_record_of<S>(entity: Entity<S>) -> GpuMaterialRecord<S> {
    GpuMaterialRecord {
        base_color: entity.material.base_color,
        emission: entity.material.emission,
        roughness: entity.material.roughness,
        material_kind: material_kind_number(entity.material.kind),
    }
}

/// The material records of the first `n` entities, in scene order.
pub open spec fn material_records<S>(entities: Seq<Entity<S>>, n: int) -> Seq<GpuMaterialRecord<S>> {
    Seq::new(n as nat, |i: int| material_record_of(entities[i]))
}

/// Slots of the spheres among the first `n` entities, in scene order.
pub open spec fn sphere_slots<S>(entities: Seq<Entity<S>>, n: int) -> Seq<GpuPrimitiveSlot>
    decreases n,
{
    if n <= 0 {
        Seq::empty()
    } else if entities[n - 1].shape is Sphere {
        sphere_slots(entities, n - 1).push(slot_of(entities, n - 1))
    } else {
        sphere_slots(entities, n - 1)
    }
}

/// Slots of the planes among the first `n` entities, in scene order.
pub open spec fn plane_slots<S>(entities: Seq<Entity<S>>, n: int) -> Seq<GpuPrimitiveSlot>
    decreases n,
{
    if n <= 0 {
        Seq::empty()
    } else if entities[n - 1].shape is Plane {
        plane_slots(entities, n - 1).push(slot_of(entities, n - 1))
    } else {
        plane_slots(entities, n - 1)
    }
}

/// Entity `i` stops the layout: its material number does not fit in `u32`,
/// or it is a box.
pub open spec fn rejects<S>(entities: Seq<Entity<S>>, i: int) -> bool {
    i > u32::MAX || entities[i].shape is Box
}

/// `i` is the first entity that stops the layout.
pub open spec fn first_rejected<S>(entities: Seq<Entity<S>>, i: int) -> bool {
    &&& 0 <= i < entities.len()
    &&& rejects(entities, i)
    &&& forall|j: int| 0 <= j < i ==> !rejects(entities, j)
}

/// Message of a scene with too many materials.
pub open spec fn too_many_materials_message() -> Seq<char> {
    "scene has more than u32::MAX materials"@
}

/// `e` is the error entity `i` stops the layout with: too many materials, or
/// an unsupported primitive naming the entity and carrying its shape.
pub open spec fn rejection<S>(entities: Seq<Entity<S>>, i: int, e: RocmRenderError<S>) -> bool {
    if i > u32::MAX {
        e matches RocmRenderError::InvalidTarget(m) && m@ == too_many_materials_message()
    } else {
        e matches RocmRenderError::UnsupportedPrimitive { entity, primitive } && entity@
            == entities[i].name@ && primitive == entities[i].shape
    }
}

/// `e` is the error a layout of `entities` fails with: the rejection of the
/// first entity that stops it.
pub open spec fn layout_error<S>(entities: Seq<Entity<S>>, e: RocmRenderError<S>) -> bool {
    exists|i: int| #![trigger entities[i]] first_rejected(entities, i) && rejection(entities, i, e)
}

/// Lays a scene out for the GPU. Entities are taken in scene order; the
/// `i`-th gets material record `i`; spheres and planes get a slot each. The
/// first entity whose material number exceeds `u32` or that is a box stops
/// the layout with an error naming the reason.
pub fn gpu_scene_layout<S: Copy>(scene: &Scene<S>) -> (result: Result<GpuSceneLayout<S>, RocmRenderError<S>>)
    ensures
        result is Ok <==> forall|i: int| 0 <= i < scene@.len() ==> !rejects(scene@, i),
        result matches Ok(layout) ==> {
            &&& layout.spheres@ == sphere_slots(scene@, scene@.len() as int)
            &&& layout.planes@ == plane_slots(scene@, scene@.len() as int)
            &&& layout.materials@ == material_records(scene@, scene@.len() as int)
        },
        result matches Err(e) ==> layout_error(scene@, e),
{
    let entities = scene.entities();
    let mut spheres: Vec<GpuPrimitiveSlot> = Vec::new();
    let mut planes: Vec<GpuPrimitiveSlot> = Vec::new();
    let mut materials: Vec<GpuMaterialRecord<S>> = Vec::new();
    let mut i: usize = 0;
    while i < entities.len()
        invariant
            entities@ == scene@,
            i <= entities@.len(),
            forall|j: int| 0 <= j < i ==> !rejects(scene@, j),
            spheres@ == sphere_slots(scene@, i as int),
            planes@ == plane_slots(scene@, i as int),
            materials@ == material_records(scene@, i as int),
        decreases entities@.len() - i,
    {
        if i > u32::MAX as usize {
            let e = RocmRenderError::InvalidTarget(String::from_str("scene has more than u32::MAX materials"));
            proof {
                assert(first_rejected(scene@, i as int));
                assert(rejection(scene@, i as int, e));
            }
            return Err(e);
        }
        let entity = &entities[i];
        materials.push(
            GpuMaterialRecord {
                base_color: entity.material.base_color,
                emission: entity.material.emission,
                roughness: entity.material.roughness,
                material_kind: entity.material.kind.gpu_id(),
            },
        );
        assert(materials@ =~= material_records(scene@, i + 1));
        let slot = GpuPrimitiveSlot {
            entity_index: i,
            material_id: i as u32,
            object_id: entity.object_id.get(),
        };
        match &entity.shape {
            PrimitiveShape::Sphere { .. } => {
                spheres.push(slot);
            },
            PrimitiveShape::Plane { .. } => {
                planes.push(slot);
            },
            PrimitiveShape::Box { .. } => {
                let e = RocmRenderError::UnsupportedPrimitive { entity: entity.name.clone(), primitive: entity.shape };
                proof {
                    assert(first_rejected(scene@, i as int));
                    assert(rejection(scene@, i as int, e));
                }
                return Err(e);
            },
        }
        i = i + 1;
    }
    Ok(GpuSceneLayout { spheres, planes, materials })
}

/// Counts of the primitives and materials uploaded to the GPU.
pub struct RocmScene {
    sphere_count: u32,
    plane_count: u32,
    material_count: u32,
}

impl RocmScene {
    pub closed spec fn spheres(&self) -> u32 {
        self.sphere_count
    }

    pub closed spec fn planes(&self) -> u32 {
        self.plane_count
    }

    pub closed spec fn materials(&self) -> u32 {
        self.material_count
    }

    pub fn sphere_count(&self) -> (n: u32)
        ensures
            n == self.spheres(),
    {
        self.sphere_count
    }

    pub fn plane_count(&self) -> (n: u32)
        ensures
            n == self.planes(),
    {
        self.plane_count
    }

    pub fn material_count(&self) -> (n: u32)
        ensures
            n == self.materials(),
    {
        self.material_count
    }
}

/// An RGB render left on the device: the size of the image.
pub struct RocmRgbFrame {
    width: u32,
    height: u32,
}

impl RocmRgbFrame {
    pub closed spec fn spec_width(&self) -> u32 {
        self.width
    }

    pub closed spec fn spec_height(&self) -> u32 {
        self.height
    }

    pub fn width(&self) -> (w: u32)
        ensures
            w == self.spec_width(),
    {
        self.width
    }

    pub fn height(&self) -> (h: u32)
        ensures
            h == self.spec_height(),
    {
        self.height
    }
}

/// A camera render left on the device: the size of its images and the
/// frame metadata they were rendered with.
pub struct RocmSensorOutput<M> {
    pub width: u32,
    pub height: u32,
    pub metadata: M,
}

/// A LiDAR scan left on the device: the scan configuration and the frame
/// metadata.
pub struct RocmLidarOutput<C, M> {
    pub config: C,
    pub metadata: M,
}

/// A LiDAR scan copied to the host: one range, one point and one object ID
/// per ray of a `width` by `height` grid.
pub struct LidarScan<S> {
    pub width: u32,
    pub height: u32,
    pub ranges: Vec<S>,
    pub points: Vec<Vec3<S>>,
    pub object_ids: Vec<u32>,
}

/// `result` is the answer of a build without a GPU backend.
pub open spec fn unavailable<T, S>(result: Result<T, RocmRenderError<S>>) -> bool {
    result matches Err(RocmRenderError::BackendUnavailable)
}

/// Message of a render target with no pixels: `{width}x{height}`.
pub open spec fn empty_target_message(width: u32, height: u32) -> Seq<char> {
    decimal_text(width as nat) + "x"@ + decimal_text(height as nat)
}

/// The GPU sensor renderer. This build has no GPU backend, so it cannot be
/// opened, and every rendering request is answered with
/// `RocmRenderError::BackendUnavailable` once its inputs have been checked.
pub struct RocmSensorRenderer;

impl RocmSensorRenderer {
    /// Opens the renderer on the first GPU.
    pub fn new() -> (result: Result<RocmSensorRenderer, RocmRenderError>)
        ensures
            unavailable(result),
    {
        Err(RocmRenderError::BackendUnavailable)
    }

    /// Architecture name of the renderer's device.
    pub fn device_arch(&self) -> (arch: &'static str)
        ensures
            arch@ == "unavailable"@,
    {
        "unavailable"
    }

    /// Uploads a scene: the scene is laid out first, and an error of the
    /// layout is returned as is; otherwise the upload itself is refused.
    pub fn upload_scene<S: Copy>(&self, scene: &Scene<S>) -> (result: Result<RocmScene, RocmRenderError<S>>)
        ensures
            (forall|i: int| 0 <= i < scene@.len() ==> !rejects(scene@, i)) ==> unavailable(result),
            (exists|i: int| 0 <= i < scene@.len() && rejects(scene@, i)) ==> (result matches Err(e)
                && layout_error(scene@, e)),
    {
        let layout = gpu_scene_layout(scene)?;
        Err(RocmRenderError::BackendUnavailable)
    }

    /// Renders the RGB image of `scene` seen by a camera with render target
    /// `camera`, keeping it on the device.
    pub fn render_rgb_to_device<S>(&self, scene: &Scene<S>, camera: RocmRgbCamera) -> (result: Result<RocmRgbFrame, RocmRenderError<S>>)
        ensures
            unavailable(result),
    {
        Err(RocmRenderError::BackendUnavailable)
    }

    /// Renders the RGB, depth and segmentation images of `scene`, keeping
    /// them on the device.
    pub fn render_all_to_device<S, M>(&self, scene: &Scene<S>, camera: RocmRgbCamera, metadata: M) -> (result: Result<RocmSensorOutput<M>, RocmRenderError<S>>)
        ensures
            unavailable(result),
    {
        Err(RocmRenderError::BackendUnavailable)
    }

    /// Renders the images of a scene already uploaded, keeping them on the
    /// device. A render target without pixels is refused with its size;
    /// any other reaches the device.
    pub fn render_uploaded_scene_to_device<M>(&self, scene: &RocmScene, camera: RocmRgbCamera, metadata: M) -> (result: Result<RocmSensorOutput<M>, RocmRenderError>)
        ensures
            camera.width == 0 || camera.height == 0 ==> (result matches Err(RocmRenderError::InvalidTarget(m))
                && m@ == empty_target_message(camera.width, camera.height)),
            camera.width != 0 && camera.height != 0 ==> unavailable(result),
    {
        if camera.width == 0 || camera.height == 0 {
            let mut message = String::new();
            append_decimal(&mut message, camera.width as u64);
            message.append("x");
            append_decimal(&mut message, camera.height as u64);
            return Err(RocmRenderError::InvalidTarget(message));
        }
        Err(RocmRenderError::BackendUnavailable)
    }

    /// Casts the rays of a LiDAR scan into a scene already uploaded, keeping
    /// the returns on the device.
    pub fn render_lidar_uploaded_scene_to_device<C, M>(&self, scene: &RocmScene, config: C, metadata: M) -> (result: Result<RocmLidarOutput<C, M>, RocmRenderError>)
        ensures
            unavailable(result),
    {
        Err(RocmRenderError::BackendUnavailable)
    }

    /// Copies an RGB render of a scene with scalars `S` to the host.
    pub fn copy_rgb_to_host<S>(&self, frame: &RocmRgbFrame) -> (result: Result<RgbImage, RocmRenderError<S>>)
        ensures
            unavailable(result),
    {
        Err(RocmRenderError::BackendUnavailable)
    }

    /// Copies the depth image of a render to the host.
    pub fn copy_depth_to_host<S, M>(&self, output: &RocmSensorOutput<M>) -> (result: Result<DepthImage<S>, RocmRenderError<S>>)
        ensures
            unavailable(result),
    {
        Err(RocmRenderError::BackendUnavailable)
    }

    /// Copies the segmentation image of a render of a scene with scalars `S`
    /// to the host.
    pub fn copy_segmentation_to_host<S, M>(&self, output: &RocmSensorOutput<M>) -> (result: Result<SegmentationImage, RocmRenderError<S>>)
        ensures
            unavailable(result),
    {
        Err(RocmRenderError::BackendUnavailable)
    }

    /// Copies the three images of a render to the host.
    pub fn copy_all_to_host<S, M>(&self, output: &RocmSensorOutput<M>) -> (result: Result<SensorImageSet<S>, RocmRenderError<S>>)
        ensures
            unavailable(result),
    {
        Err(RocmRenderError::BackendUnavailable)
    }

    /// Copies the returns of a LiDAR scan to the host.
    pub fn copy_lidar_to_host<S, C, M>(&self, output: &RocmLidarOutput<C, M>) -> (result: Result<LidarScan<S>, RocmRenderError<S>>)
        ensures
            unavailable(result),
    {
        Err(RocmRenderError::BackendUnavailable)
    }

    /// Renders the RGB image of `scene` and copies it to the host.
    pub fn render_rgb_host<S>(&self, scene: &Scene<S>, camera: RocmRgbCamera) -> (result: Result<RgbImage, RocmRenderError<S>>)
        ensures
            unavailable(result),
    {
        let device_frame = self.render_rgb_to_device(scene, camera)?;
        self.copy_rgb_to_host(&device_frame)
    }

    /// Renders the three images of `scene` and copies them to the host.
    pub fn render_all_host<S, M>(&self, scene: &Scene<S>, camera: RocmRgbCamera, metadata: M) -> (result: Result<SensorImageSet<S>, RocmRenderError<S>>)
        ensures
            unavailable(result),
    {
        let device_output = self.render_all_to_device(scene, camera, metadata)?;
        self.copy_all_to_host(&device_output)
    }
}

} // verus!
